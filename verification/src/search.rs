//! Facts about the first and the last item of a sequence that has a
//! property.
use vstd::prelude::*;

verus! {

/// Where some item has the property, there is a first one: an item with the
/// property before which none has it.
pub proof fn lemma_first_match<A>(s: Seq<A>, p: spec_fn(A) -> bool, k: int)
    requires
        0 <= k < s.len(),
        p(s[k]),
    ensures
        exists|m: int| 0 <= m <= k && p(#[trigger] s[m]) && forall|l: int| 0 <= l < m ==> !p(#[trigger] s[l]),
    decreases k,
{
    if exists|l: int| 0 <= l < k && p(#[trigger] s[l]) {
        let l = choose|l: int| 0 <= l < k && p(#[trigger] s[l]);
        lemma_first_match(s, p, l);
    } else {
        assert(forall|l: int| 0 <= l < k ==> !p(#[trigger] s[l]));
    }
}

/// Where some item has the property, there is a last one: an item with the
/// property after which none has it.
pub proof fn lemma_last_match<A>(s: Seq<A>, p: spec_fn(A) -> bool, k: int)
    requires
        0 <= k < s.len(),
        p(s[k]),
    ensures
        exists|m: int|
            k <= m < s.len() && p(#[trigger] s[m]) && forall|l: int| m < l < s.len() ==> !p(#[trigger] s[l]),
    decreases s.len() - k,
{
    if exists|l: int| k < l < s.len() && p(#[trigger] s[l]) {
        let l = choose|l: int| k < l < s.len() && p(#[trigger] s[l]);
        lemma_last_match(s, p, l);
    } else {
        assert(forall|l: int| k < l < s.len() ==> !p(#[trigger] s[l]));
    }
}

} // verus!
