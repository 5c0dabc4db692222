//! Rounding a non-negative rational `num / den` to the nearest integer,
//! with ties resolved toward the even integer.  This rounding is used both
//! for the tick schedule (`remaining = round(segment_length * scale)`) and
//! for mapping projected pixel coordinates to framebuffer cells; half-to-even
//! avoids a directional bias accumulating over many generations of tiny
//! sub-pixel offsets.

use vstd::prelude::*;

verus! {

/// The nearest integer to `num / den`, ties to even, for `num >= 0, den > 0`.
pub open spec fn spec_round(num: int, den: int) -> int
    recommends
        num >= 0,
        den > 0,
{
    let q = num / den;
    let r = num % den;
    if 2 * r < den {
        q
    } else if 2 * r > den {
        q + 1
    } else if q % 2 == 0 {
        q
    } else {
        q + 1
    }
}

/// Rounding never exceeds a bound `k` that the rational itself respects:
/// if `num <= k * den` then `round(num / den) <= k`.
pub proof fn lemma_round_le(num: int, den: int, k: int)
    requires
        num >= 0,
        den > 0,
        k >= 0,
        num <= k * den,
    ensures
        spec_round(num, den) <= k,
{
    let q = num / den;
    let r = num % den;
    vstd::arithmetic::div_mod::lemma_fundamental_div_mod(num, den);
    vstd::arithmetic::mul::lemma_mul_is_commutative(den, k);
    assert(q <= k) by {
        vstd::arithmetic::div_mod::lemma_div_is_ordered(num, k * den, den);
        vstd::arithmetic::div_mod::lemma_div_by_multiple(k, den);
    }
    if q == k {
        assert(r == num - den * k);
        assert(r <= 0);
    }
}

/// A rounding of zero pins the rational at or under one half:
/// `round(num / den) == 0` forces `2 * num <= den`.
pub proof fn lemma_round_zero(num: int, den: int)
    requires
        num >= 0,
        den > 0,
        spec_round(num, den) == 0,
    ensures
        2 * num <= den,
{
    let q = num / den;
    let r = num % den;
    vstd::arithmetic::div_mod::lemma_fundamental_div_mod(num, den);
    if q == 0 {
        vstd::arithmetic::mul::lemma_mul_basics(den);
        assert(num == r);
    } else {
        vstd::arithmetic::div_mod::lemma_div_pos_is_pos(num, den);
        assert(q >= 1);
        vstd::arithmetic::mul::lemma_mul_increases(den, q);
    }
}

/// A rational at or under one half rounds to zero.
pub proof fn lemma_round_half_zero(num: int, den: int)
    requires
        num >= 0,
        den > 0,
        2 * num <= den,
    ensures
        spec_round(num, den) == 0,
{
    let q = num / den;
    let r = num % den;
    vstd::arithmetic::div_mod::lemma_fundamental_div_mod(num, den);
    assert(q == 0) by {
        vstd::arithmetic::div_mod::lemma_basic_div(num, den);
    }
    vstd::arithmetic::mul::lemma_mul_basics(den);
    assert(r == num);
}

/// Rounding a non-negative rational is non-negative.
pub proof fn lemma_round_nonneg(num: int, den: int)
    requires
        num >= 0,
        den > 0,
    ensures
        spec_round(num, den) >= 0,
{
    vstd::arithmetic::div_mod::lemma_div_pos_is_pos(num, den);
}

/// Exact executable form of [`spec_round`].
pub fn round_half_even(num: u64, den: u64) -> (r: u64)
    requires
        1 <= den,
        den <= 0x4000_0000_0000_0000,
        num <= 0x4000_0000_0000_0000,
    ensures
        r as int == spec_round(num as int, den as int),
        r <= num,
{
    let q: u64 = num / den;
    let rem: u64 = num % den;
    proof {
        vstd::arithmetic::div_mod::lemma_fundamental_div_mod(num as int, den as int);
        if q > 0 {
            vstd::arithmetic::mul::lemma_mul_increases(den as int, q as int);
        }
    }
    assert(q <= num);
    if 2 * rem < den {
        q
    } else {
        proof {
            assert(rem >= 1);
            if q == num {
                if num > 0 {
                    assert(den as int * num as int >= num as int) by {
                        vstd::arithmetic::mul::lemma_mul_increases(den as int, num as int);
                    }
                    assert(false);
                } else {
                    assert(false);
                }
            }
        }
        if 2 * rem > den {
            q + 1
        } else if q % 2 == 0 {
            q
        } else {
            q + 1
        }
    }
}

} // verus!
