use vstd::prelude::*;

verus! {

/// Heap extension is performed stepwise. This constant defines the size of
/// one extension step.
pub const EXTEND_INCREMENT: usize = 1024;

/// Heap errors
#[derive(Debug, Clone, Copy, PartialEq, Eq, Structural)]
pub enum Error {
    InsufficientHeadroom,
}

/// Distance from the heap's top to the bottom of the stack at `sp`: an
/// estimate of how far the heap could still grow.
pub fn headroom(sp: usize, top: usize) -> (r: usize)
    ensures
        r == if sp >= top { sp - top } else { 0 },
{
    if sp >= top {
        sp - top
    } else {
        0
    }
}

/// Bytes by which the heap must grow to have `free_bytes` available when it
/// has `free` bytes available and ends at `top`, with the stack at `sp`: none
/// if it already has enough. Fails if the grown heap would reach the stack.
pub fn reserve_extension(free_bytes: usize, free: usize, top: usize, sp: usize) -> (r: Result<usize, Error>)
    ensures
        free_bytes <= free ==> r == Ok::<usize, Error>(0),
        free_bytes > free && top + (free_bytes - free) < sp ==> r == Ok::<usize, Error>(
            (free_bytes - free) as usize,
        ),
        free_bytes > free && top + (free_bytes - free) >= sp ==> r == Err::<usize, Error>(
            Error::InsufficientHeadroom,
        ),
{
    if free_bytes <= free {
        return Ok(0);
    }
    let additional_bytes = free_bytes - free;
    if additional_bytes >= sp || top >= sp - additional_bytes {
        return Err(Error::InsufficientHeadroom);
    }
    Ok(additional_bytes)
}

/// One more extension step of a heap ending at `top` stays below the stack
/// at `sp`.
pub fn can_extend(top: usize, sp: usize) -> (r: bool)
    ensures
        r == (top + EXTEND_INCREMENT < sp),
{
    sp > EXTEND_INCREMENT && top < sp - EXTEND_INCREMENT
}

} // verus!
