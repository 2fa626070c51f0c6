//! The dominant line of a magnitude spectrum and the frequency it stands for.

use crate::binary32::{peak_rank, rank_of};
use crate::error::SyncError;
use vstd::arithmetic::div_mod::{
    lemma_fundamental_div_mod, lemma_mod_bound, lemma_mod_multiples_basic,
    lemma_mod_multiples_vanish,
};
use vstd::prelude::*;

verus! {

/// No bin has a magnitude above zero.
pub open spec fn is_flat(spectrum: Seq<u32>) -> bool {
    forall|j: int| 0 <= j < spectrum.len() ==> peak_rank(#[trigger] spectrum[j]) == 0
}

/// Bin `i` is the peak: its magnitude is above zero, no bin exceeds it, and
/// every bin before it is strictly smaller, so that among equal maxima the
/// lowest index is the peak.
pub open spec fn is_peak(spectrum: Seq<u32>, i: int) -> bool {
    &&& 0 <= i < spectrum.len()
    &&& peak_rank(spectrum[i]) > 0
    &&& forall|j: int|
        0 <= j < spectrum.len() ==> peak_rank(#[trigger] spectrum[j]) <= peak_rank(spectrum[i])
    &&& forall|j: int| 0 <= j < i ==> peak_rank(#[trigger] spectrum[j]) < peak_rank(spectrum[i])
}

/// The signed frequency bin that index `index` of a transform of length
/// `len` stands for: the indices of the lower half count up from zero, those
/// of the upper half are negative frequencies that wrap toward zero.
pub open spec fn unwrapped(index: int, len: int) -> int {
    if 2 * index < len {
        index
    } else {
        index - len
    }
}

/// The turn that takes sample `i` of a stream back by the frequency of
/// signed bin `signed_bin`, counted in steps of which `len` make a full
/// turn: the sample is to be turned forward by this many steps.
pub open spec fn correction_step(signed_bin: int, len: int, i: int) -> int {
    (-(signed_bin * i)) % len
}

/// A spectrum has at most one peak.
pub proof fn lemma_peak_is_unique(spectrum: Seq<u32>, i: int, j: int)
    requires
        is_peak(spectrum, i),
        is_peak(spectrum, j),
    ensures
        i == j,
{
    if i < j {
        assert(peak_rank(spectrum[i]) < peak_rank(spectrum[j]));
        assert(peak_rank(spectrum[j]) <= peak_rank(spectrum[i]));
    } else if j < i {
        assert(peak_rank(spectrum[j]) < peak_rank(spectrum[i]));
        assert(peak_rank(spectrum[i]) <= peak_rank(spectrum[j]));
    }
}

/// Where exactly two bins share the maximum magnitude, the lower one is the
/// peak and the upper one is not.
pub proof fn lemma_tie_goes_to_lower_bin(spectrum: Seq<u32>, lower: int, upper: int)
    requires
        0 <= lower < upper < spectrum.len(),
        peak_rank(spectrum[lower]) > 0,
        peak_rank(spectrum[lower]) == peak_rank(spectrum[upper]),
        forall|j: int|
            0 <= j < spectrum.len() && j != lower && j != upper ==> peak_rank(
                #[trigger] spectrum[j],
            ) < peak_rank(spectrum[lower]),
    ensures
        is_peak(spectrum, lower),
        forall|i: int| is_peak(spectrum, i) ==> i == lower,
{
    assert(is_peak(spectrum, lower));
    assert forall|i: int| is_peak(spectrum, i) implies i == lower by {
        lemma_peak_is_unique(spectrum, i, lower);
    }
}

/// A signed bin is the index itself up to a whole number of turns of the
/// transform, and lies in the half-open band of one turn around zero.
pub proof fn lemma_unwrapped_is_centered(index: int, len: int)
    requires
        0 <= index < len,
    ensures
        unwrapped(index, len) == index || unwrapped(index, len) == index - len,
        -len <= 2 * unwrapped(index, len) < len,
{
}

/// The correction stops a tone at the bin it was made for: sample `i` of
/// such a tone stands `signed_bin * i` steps from where the tone began, and
/// turned by its correction it stands a whole number of turns from there,
/// whatever `i` is. From one corrected sample to the next the phase does
/// not move.
pub proof fn lemma_correction_stops_the_tone(signed_bin: int, len: int, i: int)
    requires
        0 < len,
    ensures
        0 <= correction_step(signed_bin, len, i) < len,
        (signed_bin * i + correction_step(signed_bin, len, i)) % len == 0,
{
    let back = -(signed_bin * i);
    lemma_fundamental_div_mod(back, len);
    lemma_mod_bound(back, len);
    assert(signed_bin * i + back % len == len * (-(back / len))) by (nonlinear_arith)
        requires
            back == -(signed_bin * i),
            back == len * (back / len) + back % len,
    ;
    lemma_mod_multiples_basic(-(back / len), len);
    assert(len * (-(back / len)) == (-(back / len)) * len) by (nonlinear_arith);
}

/// The correction needs the index of the peak only: a signed bin and its
/// index differ by a whole number of turns.
pub proof fn lemma_correction_from_index(index: int, len: int, i: int)
    requires
        0 <= index < len,
    ensures
        correction_step(unwrapped(index, len), len, i) == (-(index * i)) % len,
{
    if unwrapped(index, len) != index {
        assert(-((index - len) * i) == len * i + (-(index * i))) by (nonlinear_arith);
        lemma_mod_multiples_vanish(i, -(index * i), len);
    }
}

/// Finds the peak of a spectrum of magnitudes, given as bit patterns, by one
/// pass that keeps the first bin whose magnitude exceeds all before it.
pub fn peak_bin(spectrum: &Vec<u32>) -> (r: Result<usize, SyncError>)
    ensures
        r is Ok <==> !is_flat(spectrum@),
        match r {
            Ok(i) => is_peak(spectrum@, i as int),
            Err(e) => e == if spectrum@.len() == 0 {
                SyncError::EmptyInput
            } else {
                SyncError::NumericalDegenerate
            },
        },
{
    if spectrum.len() == 0 {
        return Err(SyncError::EmptyInput);
    }
    let mut best: usize = 0;
    let mut best_rank: u32 = 0;
    let mut i: usize = 0;
    while i < spectrum.len()
        invariant
            i <= spectrum.len(),
            forall|j: int| 0 <= j < i ==> peak_rank(#[trigger] spectrum@[j]) <= best_rank,
            best_rank > 0 ==> best < i && peak_rank(spectrum@[best as int]) == best_rank,
            best_rank > 0 ==> forall|j: int|
                0 <= j < best ==> peak_rank(#[trigger] spectrum@[j]) < best_rank,
        decreases spectrum.len() - i,
    {
        let rank: u32 = rank_of(spectrum[i]);
        if rank > best_rank {
            best = i;
            best_rank = rank;
        }
        i = i + 1;
    }
    if best_rank == 0 {
        Err(SyncError::NumericalDegenerate)
    } else {
        Ok(best)
    }
}

/// The signed frequency bin that index `index` of a transform of length
/// `len` stands for. The index is one of the transform's bins.
pub fn unwrap_bin(index: usize, len: usize) -> (r: i64)
    requires
        index < len,
    ensures
        r == unwrapped(index as int, len as int),
{
    if index < len - index {
        index as i64
    } else {
        let distance: usize = len - index;
        -(distance as i64)
    }
}

} // verus!
