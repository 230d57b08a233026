//! The stack guard that runs before user initialization.

use vstd::prelude::*;

verus! {

/// The stack has run into static data. Nothing can be done about it but stop.
#[derive(Clone, Copy, PartialEq, Eq, Debug, Structural)]
pub struct StackOverflow;

/// Whether a stack pointer of `sp` shows an overflow, where the stack starts
/// at `stack_start` and static data ends at `static_end`.
///
/// A stack that starts at or below the end of static data grows away from
/// it and cannot run into it, so nothing is checked then.
pub open spec fn overflowed(stack_start: u32, static_end: u32, sp: u32) -> bool {
    stack_start > static_end && sp <= static_end
}

/// Checks the stack pointer against the end of static data.
pub fn check_stack(stack_start: u32, static_end: u32, sp: u32) -> (r: Result<(), StackOverflow>)
    ensures
        r is Err <==> overflowed(stack_start, static_end, sp),
{
    if stack_start > static_end && sp <= static_end {
        Err(StackOverflow)
    } else {
        Ok(())
    }
}

} // verus!
