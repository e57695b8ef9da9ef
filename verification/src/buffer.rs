//! Bounded writes into caller-owned buffers.

use vstd::prelude::*;

verus! {

/// How many elements of a source of `available` elements fit into a buffer
/// of `capacity` elements.
pub open spec fn fitting(available: nat, capacity: nat) -> nat {
    if available <= capacity {
        available
    } else {
        capacity
    }
}

/// The contents of a buffer that held `target` after `source` has been
/// written over its front: the first `fitting(source.len(), target.len())`
/// elements come from `source`, every later element is kept.
pub open spec fn overwritten(target: Seq<u32>, source: Seq<u32>) -> Seq<u32> {
    Seq::new(
        target.len(),
        |i: int|
            if i < source.len() {
                source[i]
            } else {
                target[i]
            },
    )
}

/// Copies `source` over the front of `target`, never past its end.
///
/// Returns the number of elements written. The buffer keeps its length, and
/// whatever lies behind the written prefix is left as it was.
pub fn copy_clamped(source: &[u32], target: &mut [u32]) -> (written: usize)
    ensures
        final(target)@ == overwritten(old(target)@, source@),
        written == fitting(source@.len(), old(target)@.len()),
{
    let count: usize = if source.len() <= target.len() {
        source.len()
    } else {
        target.len()
    };
    let mut i: usize = 0;
    while i < count
        invariant
            i <= count,
            count <= source@.len(),
            count <= target@.len(),
            target@.len() == old(target)@.len(),
            forall|k: int| 0 <= k < i ==> target@[k] == source@[k],
            forall|k: int| i <= k < target@.len() ==> target@[k] == old(target)@[k],
        decreases count - i,
    {
        target[i] = source[i];
        i += 1;
    }
    count
}

} // verus!
