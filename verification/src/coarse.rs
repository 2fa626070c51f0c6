//! The spectral coarse estimator, on both sides of its transform.
//!
//! An estimate takes three steps. `plan_estimate` checks the parameters and
//! fixes the power to which every sample is raised and the length to which
//! the raised stream is padded with zeros. The caller raises, pads and
//! transforms, and takes the magnitude of every bin. `locate_offset` then
//! finds the peak of those magnitudes and the carrier offset that it stands
//! for, and the estimate it returns says by what part of a turn each sample
//! of the stream is to be turned to take the tone out.
//!
//! The power equals the modulation order: a stream of order 2 is squared.
//! The tone that this leaves lies at the order times the carrier offset, so
//! the offset is the tone's frequency divided by the order.

use crate::binary32::{exceeds_zero, is_positive};
use crate::error::SyncError;
use crate::padding::{is_padded_length, is_power_of_two, longest_transform, padded_length};
use crate::spectrum::{
    correction_step, is_flat, is_peak, lemma_correction_from_index, peak_bin, unwrap_bin,
    unwrapped,
};
use vstd::arithmetic::div_mod::{
    lemma_fundamental_div_mod, lemma_fundamental_div_mod_converse, lemma_mod_bound,
};
use vstd::arithmetic::power2::is_pow2;
use vstd::prelude::*;

verus! {

/// What the caller does to a stream before the transform.
#[derive(Clone, Copy, Debug, PartialEq, Eq, Structural)]
pub struct CoarsePlan {
    /// The number of samples in the stream.
    pub stream_len: usize,
    /// The length of the transform: the stream is padded with zeros up to it.
    pub padded_len: usize,
    /// The power to which every sample is raised.
    pub exponent: u32,
}

/// What an estimate holds, as plain numbers.
pub struct EstimateModel {
    /// The index of the peak in the spectrum.
    pub bin_index: int,
    /// The signed frequency bin that the peak stands for.
    pub signed_bin: int,
    /// The length of the transform.
    pub padded_len: int,
    /// The modulation order by which the tone's frequency is divided.
    pub modulation_order: int,
}

impl EstimateModel {
    /// The peak is a bin of a transform whose length is a power of two, the
    /// signed bin is the one that the peak stands for, and the order is at
    /// least 1.
    pub open spec fn wf(self) -> bool {
        &&& 0 <= self.bin_index < self.padded_len
        &&& is_pow2(self.padded_len)
        &&& self.signed_bin == unwrapped(self.bin_index, self.padded_len)
        &&& 1 <= self.modulation_order
    }
}

/// The carrier offset that a spectrum shows, as an exact fraction of the
/// sample rate: `signed_bin / (padded_len * modulation_order)` cycles per
/// sample. Times the sample rate, that is the offset in hertz.
#[derive(Clone, Copy, Debug, PartialEq, Eq)]
pub struct FrequencyEstimate {
    bin_index: usize,
    signed_bin: i64,
    padded_len: usize,
    modulation_order: u32,
}

impl View for FrequencyEstimate {
    type V = EstimateModel;

    closed spec fn view(&self) -> EstimateModel {
        EstimateModel {
            bin_index: self.bin_index as int,
            signed_bin: self.signed_bin as int,
            padded_len: self.padded_len as int,
            modulation_order: self.modulation_order as int,
        }
    }
}

impl FrequencyEstimate {
    #[verifier::type_invariant]
    spec fn well_formed(&self) -> bool {
        self@.wf()
    }

    /// The index of the peak in the spectrum.
    pub fn bin_index(&self) -> (r: usize)
        ensures
            r == self@.bin_index,
            self@.wf(),
    {
        proof {
            use_type_invariant(self);
        }
        self.bin_index
    }

    /// The signed frequency bin that the peak stands for.
    pub fn signed_bin(&self) -> (r: i64)
        ensures
            r == self@.signed_bin,
            self@.wf(),
    {
        proof {
            use_type_invariant(self);
        }
        self.signed_bin
    }

    /// The length of the transform.
    pub fn padded_len(&self) -> (r: usize)
        ensures
            r == self@.padded_len,
            self@.wf(),
    {
        proof {
            use_type_invariant(self);
        }
        self.padded_len
    }

    /// The modulation order by which the tone's frequency is divided.
    pub fn modulation_order(&self) -> (r: u32)
        ensures
            r == self@.modulation_order,
            self@.wf(),
    {
        proof {
            use_type_invariant(self);
        }
        self.modulation_order
    }

    /// The turn that takes the tone out of sample `i` of the stream, in
    /// steps of which `padded_len` make a full turn: the sample is to be
    /// turned forward by this many steps.
    pub fn correction(&self, i: usize) -> (r: usize)
        ensures
            r == correction_step(self@.signed_bin, self@.padded_len, i as int),
            r < self@.padded_len,
    {
        proof {
            use_type_invariant(self);
            lemma_correction_from_index(self@.bin_index, self@.padded_len, i as int);
        }
        let len: u128 = self.padded_len as u128;
        let index: u128 = self.bin_index as u128;
        let sample: u128 = i as u128;
        assert(index * sample <= u128::MAX) by (nonlinear_arith)
            requires
                index <= 0xffff_ffff_ffff_ffff,
                sample <= 0xffff_ffff_ffff_ffff,
        ;
        let forward: u128 = (index * sample) % len;
        proof {
            lemma_opposite_residue((index * sample) as int, len as int);
        }
        if forward == 0 {
            0
        } else {
            (len - forward) as usize
        }
    }
}

/// The residue of the opposite of a number: zero where the number's own
/// residue is zero, and what its residue lacks to the modulus elsewhere.
proof fn lemma_opposite_residue(x: int, m: int)
    requires
        0 < m,
    ensures
        (-x) % m == if x % m == 0 {
            0
        } else {
            m - x % m
        },
{
    lemma_fundamental_div_mod(x, m);
    lemma_mod_bound(x, m);
    let q = x / m;
    let r = x % m;
    if r == 0 {
        assert(-x == m * (-q) + 0) by (nonlinear_arith)
            requires
                x == m * q + r,
                r == 0,
        ;
        lemma_fundamental_div_mod_converse(-x, m, -q, 0);
    } else {
        assert(-x == m * (-q - 1) + (m - r)) by (nonlinear_arith)
            requires
                x == m * q + r,
        ;
        lemma_fundamental_div_mod_converse(-x, m, -q - 1, m - r);
    }
}

/// The error with which `plan_estimate` refuses its arguments, if it does:
/// an empty stream before anything else, then a sample rate that is not
/// above zero, an order of zero, or a stream too long to pad.
pub open spec fn plan_refusal(stream_len: usize, sample_rate: u32, modulation_order: u32) -> Option<
    SyncError,
> {
    if stream_len == 0 {
        Some(SyncError::EmptyInput)
    } else if !is_positive(sample_rate) || modulation_order == 0 || stream_len
        > longest_transform() {
        Some(SyncError::InvalidParameter)
    } else {
        None
    }
}

/// The error with which `locate_offset` refuses its arguments, if it does:
/// an empty spectrum before anything else, then an order of zero or a length
/// that no transform has, then a spectrum without a peak.
pub open spec fn offset_refusal(spectrum: Seq<u32>, modulation_order: u32) -> Option<SyncError> {
    if spectrum.len() == 0 {
        Some(SyncError::EmptyInput)
    } else if modulation_order == 0 || !is_pow2(spectrum.len() as int) {
        Some(SyncError::InvalidParameter)
    } else if is_flat(spectrum) {
        Some(SyncError::NumericalDegenerate)
    } else {
        None
    }
}

/// Checks the parameters of an estimate and plans the transform of a stream
/// of `stream_len` samples. The sample rate is given as its bit pattern.
pub fn plan_estimate(stream_len: usize, sample_rate: u32, modulation_order: u32) -> (r: Result<
    CoarsePlan,
    SyncError,
>)
    ensures
        match r {
            Ok(plan) => {
                &&& plan_refusal(stream_len, sample_rate, modulation_order) is None
                &&& plan.stream_len == stream_len
                &&& plan.exponent == modulation_order
                &&& is_padded_length(plan.padded_len as int, stream_len as int)
            },
            Err(e) => plan_refusal(stream_len, sample_rate, modulation_order) == Some(e),
        },
{
    if stream_len == 0 {
        return Err(SyncError::EmptyInput);
    }
    if !exceeds_zero(sample_rate) || modulation_order == 0 {
        return Err(SyncError::InvalidParameter);
    }
    match padded_length(stream_len) {
        Some(padded_len) => {
            Ok(CoarsePlan { stream_len, padded_len, exponent: modulation_order })
        },
        None => Err(SyncError::InvalidParameter),
    }
}

/// Finds the carrier offset in the magnitudes of a transformed stream, given
/// as bit patterns in the transform's natural order: bin 0 first.
pub fn locate_offset(spectrum: &Vec<u32>, modulation_order: u32) -> (r: Result<
    FrequencyEstimate,
    SyncError,
>)
    ensures
        match r {
            Ok(estimate) => {
                &&& offset_refusal(spectrum@, modulation_order) is None
                &&& is_peak(spectrum@, estimate@.bin_index)
                &&& estimate@.signed_bin == unwrapped(estimate@.bin_index, spectrum@.len() as int)
                &&& estimate@.padded_len == spectrum@.len()
                &&& estimate@.modulation_order == modulation_order
            },
            Err(e) => offset_refusal(spectrum@, modulation_order) == Some(e),
        },
{
    if spectrum.len() == 0 {
        return Err(SyncError::EmptyInput);
    }
    if modulation_order == 0 || !is_power_of_two(spectrum.len()) {
        return Err(SyncError::InvalidParameter);
    }
    match peak_bin(spectrum) {
        Ok(bin_index) => Ok(
            FrequencyEstimate {
                bin_index,
                signed_bin: unwrap_bin(bin_index, spectrum.len()),
                padded_len: spectrum.len(),
                modulation_order,
            },
        ),
        Err(e) => Err(e),
    }
}

} // verus!
