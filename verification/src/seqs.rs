//! Small facts about sequences that several modules use.

use vstd::prelude::*;

verus! {

/// An element of a concatenation is an element of one of its parts.
pub proof fn lemma_concat_contains<A>(a: Seq<A>, b: Seq<A>, x: A)
    ensures
        (a + b).contains(x) <==> a.contains(x) || b.contains(x),
{
    if a.contains(x) {
        let i = choose|i: int| 0 <= i < a.len() && a[i] == x;
        assert((a + b)[i] == x);
    }
    if b.contains(x) {
        let i = choose|i: int| 0 <= i < b.len() && b[i] == x;
        assert((a + b)[a.len() + i] == x);
    }
    if (a + b).contains(x) {
        let i = choose|i: int| 0 <= i < (a + b).len() && (a + b)[i] == x;
        if i < a.len() {
            assert(a[i] == x);
        } else {
            assert(b[i - a.len()] == x);
        }
    }
}

/// Moves the items of `tail` to the end of `plan`, in order.
pub fn extend<T: DeepView>(plan: &mut Vec<T>, tail: Vec<T>)
    ensures
        final(plan).deep_view() == old(plan).deep_view() + tail.deep_view(),
        final(plan)@ == old(plan)@ + tail@,
{
    let mut tail = tail;
    let ghost moved = tail@;
    plan.append(&mut tail);
    assert(plan.deep_view() =~= old(plan).deep_view() + Seq::new(
        moved.len(),
        |i: int| moved[i].deep_view(),
    ));
}

} // verus!
