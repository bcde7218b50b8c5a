use vstd::prelude::*;

verus! {

/// The two ways an arena operation can fail.
#[derive(Clone, Copy, Debug, PartialEq, Eq, Structural)]
pub enum ArenaError {
    /// The host could not provide a buffer of the requested capacity.
    AllocationError,
    /// The requested carve does not fit in the capacity that remains.
    OutOfMemory,
}

} // verus!
