use vstd::prelude::*;

verus! {

/// Errors of the arena buffer.
#[derive(Debug, Copy, Clone, PartialEq, Eq, Structural)]
pub enum NP_Error {
    /// Allocation would reach or pass the maximum addressable offset of the
    /// buffer's address width.
    OutOfSpace,
    /// A patch target does not lie fully inside the current storage.
    InvalidAddress,
}

} // verus!
