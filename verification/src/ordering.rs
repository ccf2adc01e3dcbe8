use vstd::prelude::*;
use crate::extract::spec_extracted;
use crate::html::spec_paragraphs;

verus! {

/// The content of the output file after appending each of `texts` in
/// turn, one append per page, to a file whose content was `file`.
pub open spec fn spec_after_appends(file: Seq<char>, texts: Seq<Seq<char>>) -> Seq<char>
    decreases texts.len(),
{
    if texts.len() == 0 {
        file
    } else {
        spec_after_appends(file + texts.first(), texts.drop_first())
    }
}

/// The given texts laid out one after another, in order.
pub open spec fn spec_concat_all(texts: Seq<Seq<char>>) -> Seq<char>
    decreases texts.len(),
{
    if texts.len() == 0 {
        Seq::empty()
    } else {
        texts.first() + spec_concat_all(texts.drop_first())
    }
}

/// The texts a run appends, in order: the main page's extracted text
/// first, then the extracted text of each further page, in the order the
/// pages are processed.
pub open spec fn spec_run_texts(main_html: Seq<char>, follow_htmls: Seq<Seq<char>>) -> Seq<
    Seq<char>,
> {
    seq![spec_extracted(spec_paragraphs(main_html))] + follow_htmls.map_values(
        |h: Seq<char>| spec_extracted(spec_paragraphs(h)),
    )
}

/// Appending each page's text in processing order leaves the file holding
/// its old content followed by every page's text, in that order, with no
/// interleaving.
pub proof fn lemma_append_ordering(file: Seq<char>, texts: Seq<Seq<char>>)
    ensures
        spec_after_appends(file, texts) == file + spec_concat_all(texts),
    decreases texts.len(),
{
    if texts.len() == 0 {
        assert(file + Seq::<char>::empty() =~= file);
    } else {
        lemma_append_ordering(file + texts.first(), texts.drop_first());
        assert((file + texts.first()) + spec_concat_all(texts.drop_first()) =~= file + (
        texts.first() + spec_concat_all(texts.drop_first())));
    }
}

/// A full run over a main page and its discovered pages appends the main
/// page's extracted text first, then each further page's, in processing
/// order.
pub proof fn lemma_run_ordering(file: Seq<char>, main_html: Seq<char>, follow_htmls: Seq<Seq<char>>)
    ensures
        spec_after_appends(file, spec_run_texts(main_html, follow_htmls)) == file + spec_extracted(
            spec_paragraphs(main_html),
        ) + spec_concat_all(
            follow_htmls.map_values(|h: Seq<char>| spec_extracted(spec_paragraphs(h))),
        ),
{
    let texts = spec_run_texts(main_html, follow_htmls);
    let rest = follow_htmls.map_values(|h: Seq<char>| spec_extracted(spec_paragraphs(h)));
    lemma_append_ordering(file, texts);
    assert(texts.first() == spec_extracted(spec_paragraphs(main_html)));
    assert(texts.drop_first() =~= rest);
    assert(file + spec_concat_all(texts) =~= file + spec_extracted(spec_paragraphs(main_html))
        + spec_concat_all(rest));
}

} // verus!
