//! Carrier frequency and phase synchronization for complex baseband streams:
//! the exact, integer side of a spectral coarse estimator and of a Costas
//! tracking loop.
//!
//! Samples, magnitudes and gains are IEEE 754 binary32 numbers, which this
//! crate takes as their bit patterns (`u32`). It decides what can be decided
//! exactly: which inputs are refused, to what length a stream is padded
//! before the transform, which bin of a spectrum is its peak, which signed
//! frequency bin that index stands for, and that the loop's phase stays
//! within one turn.

pub mod binary32;
pub mod coarse;
pub mod error;
pub mod padding;
pub mod reversal;
pub mod spectrum;
pub mod tracking;

pub use crate::coarse::{locate_offset, plan_estimate, CoarsePlan, EstimateModel, FrequencyEstimate};
pub use crate::error::SyncError;
pub use crate::padding::{is_power_of_two, padded_length};
pub use crate::reversal::bit_reverse;
pub use crate::spectrum::{peak_bin, unwrap_bin};
pub use crate::tracking::{check_tracking_parameters, LoopState};
