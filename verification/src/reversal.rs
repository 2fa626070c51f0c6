//! Bit reversal: the permutation between the natural order of a transform's
//! bins and the order in which a transform by halving leaves them.

use vstd::arithmetic::div_mod::lemma_div_denominator;
use vstd::arithmetic::power2::{lemma2_to64, lemma_pow2_pos, lemma_pow2_unfold, pow2};
use vstd::prelude::*;

verus! {

/// Binary digit `i` of `val`, the lowest being digit 0.
pub open spec fn bit(val: nat, i: nat) -> nat {
    (val / pow2(i)) % 2
}

/// `r` is `val` with its lowest `n_bits` binary digits in reverse order and
/// nothing above them.
pub open spec fn is_bit_reversal(r: nat, val: nat, n_bits: nat) -> bool {
    &&& r < pow2(n_bits)
    &&& forall|j: nat| j < n_bits ==> #[trigger] bit(r, j) == bit(val, (n_bits - 1 - j) as nat)
}

/// Numbers below `2^n_bits` with the same `n_bits` binary digits are equal.
pub proof fn lemma_digits_determine_value(a: nat, b: nat, n_bits: nat)
    requires
        a < pow2(n_bits),
        b < pow2(n_bits),
        forall|j: nat| j < n_bits ==> #[trigger] bit(a, j) == bit(b, j),
    ensures
        a == b,
    decreases n_bits,
{
    lemma2_to64();
    if n_bits > 0 {
        let rest = (n_bits - 1) as nat;
        lemma_pow2_unfold(n_bits);
        assert forall|j: nat| j < rest implies #[trigger] bit(a / 2, j) == bit(b / 2, j) by {
            lemma_pow2_unfold(j + 1);
            lemma_pow2_pos(j);
            lemma_div_denominator(a as int, 2, pow2(j) as int);
            lemma_div_denominator(b as int, 2, pow2(j) as int);
            assert(bit(a, j + 1) == bit(b, j + 1));
        }
        lemma_digits_determine_value(a / 2, b / 2, rest);
        assert(bit(a, 0) == bit(b, 0));
    }
}

/// A value has at most one reversal of a given width.
pub proof fn lemma_bit_reversal_is_unique(r: nat, s: nat, val: nat, n_bits: nat)
    requires
        is_bit_reversal(r, val, n_bits),
        is_bit_reversal(s, val, n_bits),
    ensures
        r == s,
{
    lemma_digits_determine_value(r, s, n_bits);
}

/// Reversal is its own inverse on the values of the width: reversing a
/// value below `2^n_bits` twice gives the value back.
pub proof fn lemma_reversal_is_involution(val: nat, once: nat, twice: nat, n_bits: nat)
    requires
        val < pow2(n_bits),
        is_bit_reversal(once, val, n_bits),
        is_bit_reversal(twice, once, n_bits),
    ensures
        twice == val,
{
    assert forall|j: nat| j < n_bits implies #[trigger] bit(twice, j) == bit(val, j) by {
        let mirror = (n_bits - 1 - j) as nat;
        assert(bit(twice, j) == bit(once, mirror));
        assert(bit(once, mirror) == bit(val, (n_bits - 1 - mirror) as nat));
    }
    lemma_digits_determine_value(twice, val, n_bits);
}

/// Bit `j` of a machine word, by shifting and masking.
spec fn word_bit(x: usize, j: usize) -> usize {
    (x >> j) & 1
}

/// A bit taken by shifting and masking is the binary digit of that place.
proof fn lemma_word_bit_is_bit(x: usize, j: usize)
    requires
        j < usize::BITS,
    ensures
        word_bit(x, j) == bit(x as nat, j as nat),
{
    let y: usize = x >> j;
    vstd::bits::lemma_usize_shr_is_div(x, j);
    assert(y & 1 == y % 2) by (bit_vector);
}

/// Masking a bit and shifting it down gives the bit, which is 0 or 1.
proof fn lemma_picked_bit(val: usize, i: usize)
    by (bit_vector)
    requires
        i < usize::BITS,
    ensures
        ((val & (1usize << i)) >> i) == ((val >> i) & 1),
        ((val >> i) & 1) <= 1,
{
}

/// Each bit of a union is the union of the two bits of that place.
proof fn lemma_bit_of_union(a: usize, t: usize, j: usize)
    by (bit_vector)
    requires
        j < usize::BITS,
    ensures
        ((a | t) >> j) & 1 == (((a >> j) & 1) | ((t >> j) & 1)),
        ((a >> j) & 1) | 0 == ((a >> j) & 1),
        0 | ((t >> j) & 1) == ((t >> j) & 1),
{
}

/// A bit shifted up to place `s` is the only bit that can be set there.
proof fn lemma_bit_of_placed(b: usize, s: usize, j: usize)
    by (bit_vector)
    requires
        b <= 1,
        s < usize::BITS,
        j < usize::BITS,
    ensures
        ((b << s) >> j) & 1 == (if j == s {
            b
        } else {
            0
        }),
{
}

/// Placing a bit below place `n` leaves everything from place `n` on clear.
proof fn lemma_union_stays_below(a: usize, b: usize, s: usize, n: usize)
    by (bit_vector)
    requires
        b <= 1,
        s < n,
        n < usize::BITS,
        a >> n == 0,
    ensures
        (a | (b << s)) >> n == 0,
{
}

/// A word with nothing set from place `n` on is below `2^n`.
proof fn lemma_below_pow2(r: usize, n: usize)
    requires
        n <= usize::BITS,
        n < usize::BITS ==> r >> n == 0,
    ensures
        r < pow2(n as nat),
{
    if n < usize::BITS {
        vstd::bits::lemma_usize_shr_is_div(r, n);
        vstd::arithmetic::power2::lemma_pow2_pos(n as nat);
        let d = pow2(n as nat) as int;
        assert(r as int / d == 0);
        vstd::arithmetic::div_mod::lemma_fundamental_div_mod(r as int, d);
        vstd::arithmetic::div_mod::lemma_mod_bound(r as int, d);
    } else {
        vstd::layout::unsigned_int_max_values();
    }
}

/// Reverses the order of the lowest `n_bits` bits of `val` and drops what
/// lies above them. With a single bit there is nothing to reverse, and
/// `val` comes back whole. A width of no bits has no reversal, and a width
/// beyond the machine's word cannot be shifted.
pub fn bit_reverse(val: usize, n_bits: usize) -> (reversed: usize)
    requires
        1 <= n_bits <= usize::BITS,
    ensures
        n_bits == 1 ==> reversed == val,
        n_bits > 1 ==> is_bit_reversal(reversed as nat, val as nat, n_bits as nat),
{
    if n_bits == 1 {
        return val;
    }
    let mut reversed: usize = 0;
    let mut i: usize = 0;
    proof {
        assert(0usize >> n_bits == 0) by (bit_vector);
        assert forall|j: usize| j < usize::BITS implies #[trigger] word_bit(0usize, j) == 0 by {
            assert((0usize >> j) & 1 == 0) by (bit_vector);
        }
    }
    while i < n_bits
        invariant
            i <= n_bits <= usize::BITS,
            n_bits < usize::BITS ==> reversed >> n_bits == 0,
            forall|j: usize|
                j < usize::BITS ==> #[trigger] word_bit(reversed, j) == (if n_bits - i <= j
                    < n_bits {
                    word_bit(val, (n_bits - 1 - j) as usize)
                } else {
                    0
                }),
        decreases n_bits - i,
    {
        let picked: usize = (val & (1 << i)) >> i;
        let place: usize = n_bits - i - 1;
        let ghost before = reversed;
        proof {
            lemma_picked_bit(val, i);
            if n_bits < usize::BITS {
                lemma_union_stays_below(before, picked, place, n_bits);
            }
            assert forall|j: usize| j < usize::BITS implies #[trigger] word_bit(
                (before | (picked << place)),
                j,
            ) == (if n_bits - (i + 1) <= j < n_bits {
                word_bit(val, (n_bits - 1 - j) as usize)
            } else {
                0
            }) by {
                lemma_bit_of_union(before, picked << place, j);
                lemma_bit_of_placed(picked, place, j);
                assert(word_bit(before, j) == (if n_bits - i <= j < n_bits {
                    word_bit(val, (n_bits - 1 - j) as usize)
                } else {
                    0
                }));
            }
        }
        reversed |= picked << place;
        i = i + 1;
    }
    proof {
        lemma_below_pow2(reversed, n_bits);
        assert forall|j: nat| j < n_bits implies #[trigger] bit(reversed as nat, j) == bit(
            val as nat,
            (n_bits - 1 - j) as nat,
        ) by {
            let low: usize = j as usize;
            let high: usize = (n_bits - 1 - j) as usize;
            lemma_word_bit_is_bit(reversed, low);
            lemma_word_bit_is_bit(val, high);
            assert(word_bit(reversed, low) == word_bit(val, high));
        }
    }
    reversed
}

} // verus!
