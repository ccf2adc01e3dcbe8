use vstd::prelude::*;
use crate::extract::extract_content;
use crate::extract::spec_extracted;
use crate::html::pager_hrefs;
use crate::html::paragraph_texts;
use crate::html::spec_pager_hrefs;
use crate::html::spec_paragraphs;
use crate::link::Link;
use crate::link::spec_base_url;
use crate::pagination::discover_links;
use crate::pagination::spec_discovered;
use crate::pagination::spec_names;

verus! {

/// The body text of one page: every paragraph of the document but the
/// last two, each followed by a newline; empty when the document has
/// fewer than two paragraphs.
pub fn page_text(html: &str) -> (r: String)
    ensures
        r@ == spec_extracted(spec_paragraphs(html@)),
{
    let paragraphs = paragraph_texts(html);
    extract_content(&paragraphs)
}

/// The pagination links discovered on one page: for each pager list item
/// the first anchor's target, kept when present and ending in ".html",
/// with the last kept entry dropped; each paired with the fixed site
/// prefix. A page without a pager yields no links.
pub fn page_links(html: &str) -> (r: Vec<Link>)
    ensures
        spec_names(r@) == spec_discovered(spec_pager_hrefs(html@)),
        forall|i: int| 0 <= i < r@.len() ==> (#[trigger] r@[i]).base@ == spec_base_url(),
{
    let hrefs = pager_hrefs(html);
    discover_links(&hrefs)
}

} // verus!
