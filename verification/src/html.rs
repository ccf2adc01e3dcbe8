use vstd::prelude::*;
use select::document::Document;
use select::predicate::Attr;
use select::predicate::Name;
use select::predicate::Predicate;

verus! {

/// The text of each paragraph element of the HTML document, in document
/// order. Parsing is a pure function of the HTML text.
pub uninterp spec fn spec_paragraphs(html: Seq<char>) -> Seq<Seq<char>>;

/// Relies on select (Document::from, Document::find with the Name("p")
/// predicate, Node::text): the concatenated text of each paragraph
/// element, in document order, a function of the HTML text alone.
#[verifier::external_body]
pub(crate) fn paragraph_texts(html: &str) -> (r: Vec<String>)
    ensures
        r.deep_view() == spec_paragraphs(html@),
{
    let doc = Document::from(html);
    let mut out: Vec<String> = Vec::new();
    for node in doc.find(Name("p")) {
        out.push(node.text());
    }
    out
}

/// For each list item of the page's pager containers (a `div` whose
/// `class` attribute is `m_pages`), the link target of its first anchor
/// descendant: `None` where the item has no anchor or the anchor has no
/// `href` attribute. In document order; a function of the HTML text alone.
/// A document with no pager container yields the empty sequence.
pub uninterp spec fn spec_pager_hrefs(html: Seq<char>) -> Seq<Option<Seq<char>>>;

/// Relies on select (Document::from, find with the Name and Attr
/// predicates, Node::attr): reads, for each list item of each pager
/// container, the first anchor's link target, in document order.
#[verifier::external_body]
pub(crate) fn pager_hrefs(html: &str) -> (r: Vec<Option<String>>)
    ensures
        r.deep_view() == spec_pager_hrefs(html@),
{
    let doc = Document::from(html);
    let mut out: Vec<Option<String>> = Vec::new();
    for pager in doc.find(Name("div").and(Attr("class", "m_pages"))) {
        for li in pager.find(Name("li")) {
            match li.find(Name("a")).next() {
                Some(a) => match a.attr("href") {
                    Some(h) => out.push(Some(h.to_string())),
                    None => out.push(None),
                },
                None => out.push(None),
            }
        }
    }
    out
}

} // verus!
