//! Indices that may count from the end of a sequence.

use vstd::prelude::*;

verus! {

/// The position that `index` stands for in a sequence of `len` items: the
/// index itself where it is not negative, else counted back from the end.
pub open spec fn wrapped_position(len: int, index: int) -> int {
    if index >= 0 {
        index
    } else {
        index + len
    }
}

/// Turns an index that may count from the end into a position. The index
/// has to stand for a position: one that is not negative and fits `usize`.
pub fn wrapped_index(len: usize, index: i128) -> (position: usize)
    requires
        0 <= wrapped_position(len as int, index as int) <= usize::MAX,
    ensures
        position == wrapped_position(len as int, index as int),
{
    if index >= 0 {
        index as usize
    } else {
        (index + len as i128) as usize
    }
}

} // verus!
