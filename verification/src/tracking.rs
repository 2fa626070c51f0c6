//! The Costas tracking loop: its parameters and the state that it carries
//! from one sample to the next.
//!
//! The loop's arithmetic is the caller's. For every sample it turns the
//! sample back by the state's phase, takes the product of the two parts of
//! what comes out as the error, adds the error times one gain to the
//! frequency, and adds the frequency and the error times the other gain to
//! the phase, which it then reduces modulo a full turn. The state kept here
//! takes in what that step computed and holds the phase within one turn
//! whatever it was handed.

use crate::binary32::{
    exceeds_zero,
    finite_non_negative,
    is_finite_non_negative,
    is_positive,
    SIGN_BIT,
};
use crate::error::SyncError;
use vstd::prelude::*;

verus! {

/// The pattern of the binary32 number nearest to a full turn, two times pi.
/// Every number with a lower pattern and a clear sign bit is below a full
/// turn.
pub const FULL_TURN_BITS: u32 = 0x40c9_0fdb;

/// The phase lies in the half-open range from zero to a full turn. Both
/// zeros do.
pub open spec fn is_wrapped_phase(bits: u32) -> bool {
    bits < FULL_TURN_BITS || bits == SIGN_BIT
}

/// The phase that the state keeps when it is handed `phase`: the phase
/// itself where it lies within one turn, and zero where it does not.
pub open spec fn kept_phase(phase: u32) -> u32 {
    if is_wrapped_phase(phase) {
        phase
    } else {
        0
    }
}

/// The loop accepts a sample rate above zero and gains that are finite and
/// not below zero.
pub open spec fn tracking_parameters_valid(sample_rate: u32, alpha: u32, beta: u32) -> bool {
    &&& is_positive(sample_rate)
    &&& is_finite_non_negative(alpha)
    &&& is_finite_non_negative(beta)
}

/// Checks the parameters of the loop, given as bit patterns. A stream
/// without samples is no error: the loop then has nothing to do.
pub fn check_tracking_parameters(sample_rate: u32, alpha: u32, beta: u32) -> (r: Result<
    (),
    SyncError,
>)
    ensures
        r is Ok <==> tracking_parameters_valid(sample_rate, alpha, beta),
        r matches Err(e) ==> e == SyncError::InvalidParameter,
{
    if exceeds_zero(sample_rate) && finite_non_negative(alpha) && finite_non_negative(beta) {
        Ok(())
    } else {
        Err(SyncError::InvalidParameter)
    }
}

/// What the loop's state holds: two bit patterns.
pub struct LoopModel {
    /// The phase, in radians.
    pub phase: u32,
    /// The frequency, in radians per sample.
    pub frequency: u32,
}

/// The phase and the frequency of the loop, in radians and in radians per
/// sample, as bit patterns. The phase always lies within one turn.
#[derive(Clone, Copy, Debug, PartialEq, Eq)]
pub struct LoopState {
    phase: u32,
    frequency: u32,
}

impl View for LoopState {
    type V = LoopModel;

    closed spec fn view(&self) -> LoopModel {
        LoopModel { phase: self.phase, frequency: self.frequency }
    }
}

impl LoopState {
    #[verifier::type_invariant]
    spec fn phase_is_wrapped(&self) -> bool {
        is_wrapped_phase(self.phase)
    }

    /// The state in which the loop starts: phase and frequency zero.
    pub fn new() -> (state: LoopState)
        ensures
            state@.phase == 0,
            state@.frequency == 0,
    {
        LoopState { phase: 0, frequency: 0 }
    }

    /// The phase, which lies within one turn.
    pub fn phase(&self) -> (r: u32)
        ensures
            r == self@.phase,
            is_wrapped_phase(r),
    {
        proof {
            use_type_invariant(self);
        }
        self.phase
    }

    /// The frequency.
    pub fn frequency(&self) -> (r: u32)
        ensures
            r == self@.frequency,
    {
        self.frequency
    }

    /// Ends the step for one sample: takes in the frequency and the reduced
    /// phase that the step computed. A phase that does not lie within one
    /// turn, as rounding at the upper end or an input that is not a number
    /// can leave it, is replaced by zero.
    pub fn update(&mut self, frequency: u32, phase: u32)
        ensures
            final(self)@.frequency == frequency,
            final(self)@.phase == kept_phase(phase),
            is_wrapped_phase(final(self)@.phase),
    {
        let kept: u32 = if phase < FULL_TURN_BITS || phase == SIGN_BIT {
            phase
        } else {
            0
        };
        *self = LoopState { phase: kept, frequency };
    }
}

} // verus!
