use vstd::prelude::*;

verus! {

/// A structural fault: the fixed constants of the build are wrong.
///
/// These never occur in a correct build; every operation that can raise one
/// reports it as an explicit error value instead of emitting wrong bytes.
#[derive(Clone, Copy, Debug, PartialEq, Eq, Structural)]
pub enum Fault {
    /// A write was asked to place more bytes than the region has left.
    CapacityExceeded,
    /// An instruction form outside the supported set was requested.
    UnsupportedOperation,
}

} // verus!
