use vstd::prelude::*;
use vstd::string::StringExecFns;

verus! {

/// The given paragraph texts laid out in order, a newline after each.
pub open spec fn spec_joined(ps: Seq<Seq<char>>) -> Seq<char>
    decreases ps.len(),
{
    if ps.len() == 0 {
        Seq::empty()
    } else {
        spec_joined(ps.drop_last()) + ps.last() + seq!['\n']
    }
}

/// The text extracted from a page whose paragraph texts are `ps`, in
/// document order: every paragraph except the last two, each followed by a
/// newline. With fewer than two paragraphs the result is empty.
pub open spec fn spec_extracted(ps: Seq<Seq<char>>) -> Seq<char> {
    if ps.len() < 2 {
        Seq::empty()
    } else {
        spec_joined(ps.take(ps.len() - 2))
    }
}

/// Joins every paragraph text but the last two, a newline after each. With
/// fewer than two paragraphs the result is the empty string: that is the
/// normal "no content" outcome, not an error.
pub fn extract_content(paragraphs: &Vec<String>) -> (r: String)
    ensures
        r@ == spec_extracted(paragraphs.deep_view()),
{
    let ghost ps = paragraphs.deep_view();
    let mut r = String::new();
    if paragraphs.len() < 2 {
        return r;
    }
    let end = paragraphs.len() - 2;
    proof {
        assert(ps.take(0) =~= Seq::<Seq<char>>::empty());
    }
    let mut i: usize = 0;
    while i < end
        invariant
            end == ps.len() - 2,
            ps == paragraphs.deep_view(),
            i <= end,
            r@ == spec_joined(ps.take(i as int)),
        decreases end - i,
    {
        r.append(paragraphs[i].as_str());
        r.append("\n");
        proof {
            reveal_strlit("\n");
            assert(ps.take(i + 1).drop_last() =~= ps.take(i as int));
            assert(ps.take(i + 1).last() == ps[i as int]);
            assert(ps[i as int] == paragraphs@[i as int]@);
        }
        i = i + 1;
    }
    proof {
        assert(ps.take(end as int) == ps.take(ps.len() - 2));
    }
    r
}

} // verus!
