use vstd::prelude::*;
use vstd::string::StrSliceExecFns;
use crate::link::Link;
use crate::link::spec_base_url;

verus! {

/// True when `s` ends with the characters of `suffix`.
pub open spec fn spec_ends_with(s: Seq<char>, suffix: Seq<char>) -> bool {
    suffix.len() <= s.len() && s.subrange(s.len() - suffix.len(), s.len() as int) == suffix
}

/// Whether the string ends with the given suffix, character by character.
fn ends_with(s: &str, suffix: &str) -> (r: bool)
    ensures
        r == spec_ends_with(s@, suffix@),
{
    let n = s.unicode_len();
    let m = suffix.unicode_len();
    if m > n {
        return false;
    }
    let mut i: usize = 0;
    while i < m
        invariant
            m <= n,
            n == s@.len(),
            m == suffix@.len(),
            i <= m,
            forall|j: int| 0 <= j < i ==> s@[n - m + j] == suffix@[j],
        decreases m - i,
    {
        if s.get_char(n - m + i) != suffix.get_char(i) {
            proof {
                assert(s@.subrange(n - m, n as int)[i as int] == s@[n - m + i]);
            }
            return false;
        }
        i = i + 1;
    }
    proof {
        assert(s@.subrange(n - m, n as int) =~= suffix@);
    }
    true
}

/// The link targets kept from the pager's list items: those that are
/// present and end in ".html", in document order.
pub open spec fn spec_kept(hrefs: Seq<Option<Seq<char>>>) -> Seq<Seq<char>>
    decreases hrefs.len(),
{
    if hrefs.len() == 0 {
        Seq::empty()
    } else {
        let rest = spec_kept(hrefs.drop_last());
        match hrefs.last() {
            Some(h) => if spec_ends_with(h, ".html"@) {
                rest.push(h)
            } else {
                rest
            },
            None => rest,
        }
    }
}

/// The discovered pagination targets: the kept link targets with the final
/// entry dropped unconditionally. An empty kept list stays empty.
pub open spec fn spec_discovered(hrefs: Seq<Option<Seq<char>>>) -> Seq<Seq<char>> {
    if spec_kept(hrefs).len() == 0 {
        Seq::empty()
    } else {
        spec_kept(hrefs).drop_last()
    }
}

/// The path segments of a sequence of page references, in order.
pub open spec fn spec_names(links: Seq<Link>) -> Seq<Seq<char>> {
    links.map_values(|l: Link| l.html_name@)
}

/// The last discovered entry is always dropped: the result is exactly the
/// kept link list without its final element, entry for entry.
pub proof fn lemma_pagination_drops_last(hrefs: Seq<Option<Seq<char>>>)
    ensures
        spec_kept(hrefs).len() == 0 ==> spec_discovered(hrefs) == Seq::<Seq<char>>::empty(),
        spec_kept(hrefs).len() > 0 ==> spec_discovered(hrefs).len() == spec_kept(hrefs).len() - 1,
        forall|i: int|
            0 <= i < spec_discovered(hrefs).len() ==> spec_discovered(hrefs)[i] == spec_kept(
                hrefs,
            )[i],
{
}

/// A page with no pager entries at all yields no pagination links; that is
/// a normal outcome, not an error.
pub proof fn lemma_pagination_absence()
    ensures
        spec_discovered(Seq::<Option<Seq<char>>>::empty()) == Seq::<Seq<char>>::empty(),
{
}

/// Builds the pagination links from the pager's list items, given for each
/// item the link target of its first anchor, if any. An absent target or
/// one not ending in ".html" is skipped silently; the last kept entry is
/// dropped unconditionally.
pub fn discover_links(hrefs: &Vec<Option<String>>) -> (r: Vec<Link>)
    ensures
        spec_names(r@) == spec_discovered(hrefs.deep_view()),
        forall|i: int| 0 <= i < r@.len() ==> (#[trigger] r@[i]).base@ == spec_base_url(),
{
    let ghost hs = hrefs.deep_view();
    let mut kept: Vec<Link> = Vec::new();
    proof {
        assert(hs.take(0) =~= Seq::<Option<Seq<char>>>::empty());
        assert(spec_names(kept@) =~= spec_kept(hs.take(0)));
    }
    let mut idx: usize = 0;
    while idx < hrefs.len()
        invariant
            hs == hrefs.deep_view(),
            hs.len() == hrefs@.len(),
            idx <= hrefs@.len(),
            spec_names(kept@) == spec_kept(hs.take(idx as int)),
            forall|i: int| 0 <= i < kept@.len() ==> (#[trigger] kept@[i]).base@ == spec_base_url(),
        decreases hrefs@.len() - idx,
    {
        let ghost prev = kept@;
        match &hrefs[idx] {
            Some(h) => {
                if ends_with(h.as_str(), ".html") {
                    kept.push(Link::new(h.clone()));
                }
            },
            None => {},
        }
        proof {
            assert(hs.take(idx + 1).drop_last() =~= hs.take(idx as int));
            assert(hs.take(idx + 1).last() == hs[idx as int]);
            assert(hs[idx as int] == hrefs@[idx as int].deep_view());
            if kept@ != prev {
                assert(spec_names(kept@) =~= spec_names(prev).push(
                    kept@.last().html_name@,
                ));
            }
            assert(spec_names(kept@) =~= spec_kept(hs.take(idx + 1)));
        }
        idx = idx + 1;
    }
    proof {
        assert(hs.take(hs.len() as int) =~= hs);
    }
    let ghost whole = kept@;
    kept.pop();
    proof {
        if whole.len() > 0 {
            assert(spec_names(kept@) =~= spec_names(whole).drop_last());
        }
    }
    kept
}

} // verus!
