use vstd::prelude::*;

verus! {

/// The ways in which a request to the native library can fail.
#[derive(Clone, Copy, Debug, PartialEq, Eq, Structural)]
pub enum FunctionalError {
    /// The native initialization returned this nonzero status code.
    FailedInitialization(i32),
    /// The functional ID is not among the enumerated IDs.
    InvalidID,
    /// The functional name is unknown to the native table.
    InvalidName,
}

} // verus!
