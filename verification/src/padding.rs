//! Transform lengths: powers of two and padding up to the next one.

use vstd::arithmetic::power2::{
    is_pow2, is_pow2_equiv, is_pow2_exists, lemma_pow2, lemma_pow2_unfold, pow2,
};
use vstd::prelude::*;

verus! {

/// `p` is the length to which a stream of `n` samples is padded: the least
/// power of two that is at least `n`.
pub open spec fn is_padded_length(p: int, n: int) -> bool {
    &&& is_pow2(p)
    &&& n <= p
    &&& forall|q: int| #[trigger] is_pow2(q) && n <= q ==> p <= q
}

/// The longest transform that the machine's word can count: half the range
/// of a `usize`, which is the greatest power of two in it.
pub open spec fn longest_transform() -> int {
    usize::MAX / 2 + 1
}

/// One is a power of two, and so is the double of every power of two.
pub proof fn lemma_pow2_step(p: int)
    ensures
        is_pow2(1),
        is_pow2(p) ==> is_pow2(2 * p),
{
    reveal(is_pow2);
    assert(is_pow2(1));
    if is_pow2(p) {
        assert((2 * p) / 2 == p);
        assert(is_pow2(2 * p));
    }
}

/// Between a power of two and its double lies no other power of two.
pub proof fn lemma_pow2_gap(a: int, b: int)
    requires
        is_pow2(a),
        is_pow2(b),
        a < b,
    ensures
        2 * a <= b,
    decreases b,
{
    reveal(is_pow2);
    if a > 1 {
        lemma_pow2_gap(a / 2, b / 2);
    }
}

/// A length has at most one padded length.
pub proof fn lemma_padded_length_is_unique(p: int, q: int, n: int)
    requires
        is_padded_length(p, n),
        is_padded_length(q, n),
    ensures
        p == q,
{
}

/// A length that is a power of two already is its own padded length.
pub proof fn lemma_power_of_two_needs_no_padding(n: int)
    requires
        is_pow2(n),
    ensures
        is_padded_length(n, n),
{
}

/// Padding adds fewer samples than the stream has: the padded length of a
/// stream that is not empty is less than twice its length, so that the
/// transform's bins are at most as wide as those of the unpadded stream and
/// more than half as wide.
pub proof fn lemma_padding_less_than_doubles(p: int, n: int)
    requires
        1 <= n,
        is_padded_length(p, n),
    ensures
        n <= p < 2 * n,
{
    reveal(is_pow2);
    if p > 1 {
        assert(is_pow2(p / 2));
        if n <= p / 2 {
            assert(p <= p / 2);
        }
    }
}

/// `longest_transform` is a power of two, and every greater power of two is
/// beyond the range of a `usize`.
pub proof fn lemma_longest_transform(q: int)
    ensures
        is_pow2(longest_transform()),
        is_pow2(q) && longest_transform() < q ==> usize::MAX < q,
{
    let top = (usize::BITS - 1) as nat;
    vstd::layout::unsigned_int_max_values();
    lemma_pow2_unfold(usize::BITS as nat);
    assert(longest_transform() == pow2(top));
    lemma_pow2(top);
    is_pow2_equiv(pow2(top) as int);
    assert(is_pow2_exists(pow2(top) as int));
    if is_pow2(q) && longest_transform() < q {
        lemma_pow2_gap(longest_transform(), q);
    }
}

/// The least power of two that is at least `len`, or `None` where `len` is
/// beyond the longest transform.
pub fn padded_length(len: usize) -> (r: Option<usize>)
    ensures
        r is Some <==> len <= longest_transform(),
        r matches Some(p) ==> is_padded_length(p as int, len as int),
{
    let mut p: usize = 1;
    proof {
        lemma_pow2_step(1);
        reveal(is_pow2);
    }
    while p < len
        invariant
            1 <= p,
            is_pow2(p as int),
            forall|q: int| #[trigger] is_pow2(q) && len <= q ==> p <= q,
        decreases usize::MAX - p,
    {
        if p > usize::MAX / 2 {
            return None;
        }
        proof {
            lemma_pow2_step(p as int);
            assert forall|q: int| #[trigger] is_pow2(q) && len <= q implies 2 * p <= q by {
                lemma_pow2_gap(p as int, q);
            }
        }
        p = 2 * p;
    }
    proof {
        lemma_longest_transform(p as int);
    }
    Some(p)
}

/// Whether `n` is a power of two, the only kind of length that the
/// transform accepts.
pub fn is_power_of_two(n: usize) -> (r: bool)
    ensures
        r == is_pow2(n as int),
{
    match padded_length(n) {
        Some(p) => {
            proof {
                reveal(is_pow2);
            }
            p == n
        },
        None => {
            proof {
                lemma_longest_transform(n as int);
            }
            false
        },
    }
}

} // verus!
