//! Counting along a run.
use vstd::prelude::*;

verus! {

/// How many items of `items` are such as `wanted` says.
pub open spec fn count<A>(items: Seq<A>, wanted: spec_fn(A) -> bool) -> nat
    decreases items.len(),
{
    if items.len() == 0 {
        0
    } else {
        count(items.drop_last(), wanted) + (if wanted(items.last()) {
            1nat
        } else {
            0nat
        })
    }
}

} // verus!
