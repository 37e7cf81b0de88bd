//! The focus/stack navigator: where in an output's front-to-back view stack
//! the view to focus sits. Used with offset 0 to refocus the topmost view
//! after a destroy, a close, or a send-to-back.

use vstd::prelude::*;

verus! {

/// The index the navigator picks from a stack of `len` views: the topmost
/// view (index len − 1) rotated forward by `offset`, wrapping; none for an
/// empty stack.
pub open spec fn spec_topmost_index(len: int, offset: int) -> Option<int> {
    if len == 0 {
        None
    } else {
        Some((len - 1 + offset) % len)
    }
}

/// Index into an output's view stack of the view to focus: the topmost for
/// offset 0, cycling through the stack as the offset grows. Never indexes
/// an empty stack: returns None for one instead.
pub fn topmost_index(len: usize, offset: usize) -> (r: Option<usize>)
    ensures
        len == 0 ==> r is None,
        len > 0 ==> (r matches Some(i) && i as int == spec_topmost_index(len as int, offset as int)->0),
        len > 0 ==> r->0 < len,
{
    if len == 0 {
        None
    } else {
        let i: usize = ((len as u128 - 1 + offset as u128) % len as u128) as usize;
        Some(i)
    }
}

} // verus!
