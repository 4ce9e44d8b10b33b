//! A small sequence fact shared by the cleanup passes: how `filter` grows
//! when one element is appended.

use vstd::prelude::*;

verus! {

/// Appending an element to a sequence appends it to the filtered sequence
/// exactly when it satisfies the predicate.
pub proof fn lemma_filter_push<A>(s: Seq<A>, x: A, pred: spec_fn(A) -> bool)
    ensures
        s.push(x).filter(pred) == if pred(x) {
            s.filter(pred).push(x)
        } else {
            s.filter(pred)
        },
{
    reveal(Seq::filter);
    assert(s.push(x).drop_last() =~= s);
}

} // verus!
