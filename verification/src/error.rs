//! Failures that the synchronization stages report to their caller.

use vstd::prelude::*;

verus! {

/// Why a stage refused its input.
#[derive(Clone, Copy, Debug, PartialEq, Eq, Structural)]
pub enum SyncError {
    /// The stream holds no sample where a maximum needs at least one.
    EmptyInput,
    /// A sample rate that is not positive, a modulation order of zero, a
    /// gain that is negative or not finite, or a length that no transform
    /// can take.
    InvalidParameter,
    /// No bin of the spectrum has a magnitude above zero: there is no peak.
    NumericalDegenerate,
}

} // verus!
