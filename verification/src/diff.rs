use vstd::prelude::*;
use vstd::std_specs::cmp::PartialEqSpec;

verus! {

/// Two sequences differ when their lengths differ, or when at some position that both have
/// the two entries are not equal.
pub open spec fn sequences_differ<A: PartialEq>(a: Seq<A>, b: Seq<A>) -> bool {
    ||| a.len() != b.len()
    ||| exists|i: int| 0 <= i < a.len() && !(#[trigger] a[i]).eq_spec(&b[i])
}

/// Compares two slices entry by entry, in order.
pub fn vec_inequality<A: PartialEq>(va: &[A], vb: &[A]) -> (differ: bool)
    ensures
        A::obeys_eq_spec() ==> differ == sequences_differ(va@, vb@),
{
    if va.len() != vb.len() {
        return true;
    }
    let mut i: usize = 0;
    while i < va.len()
        invariant
            i <= va.len(),
            va.len() == vb.len(),
            A::obeys_eq_spec() ==> forall|j: int|
                0 <= j < i ==> (#[trigger] va@[j]).eq_spec(&vb@[j]),
        decreases va.len() - i,
    {
        if va[i] != vb[i] {
            return true;
        }
        i += 1;
    }
    false
}

/// The comparison is sensitive to order: exchanging two entries that are not equal to each
/// other gives a sequence that differs from the first.
pub proof fn lemma_exchange_differs<A: PartialEq>(s: Seq<A>, i: int, j: int)
    requires
        0 <= i < s.len(),
        0 <= j < s.len(),
        !s[i].eq_spec(&s[j]),
    ensures
        sequences_differ(s, s.update(i, s[j]).update(j, s[i])),
{
    let exchanged = s.update(i, s[j]).update(j, s[i]);
    assert(!s[i].eq_spec(&exchanged[i]));
}

} // verus!
