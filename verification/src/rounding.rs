//! Fixed-point price representation and rounding to 8 decimal places.
//!
//! A price is a count of ticks, one tick being 10^-8 of a price unit. The
//! indicator lines are midpoints of two prices, then a midpoint of two such
//! midpoints, so every intermediate value is an exact multiple of a quarter
//! tick and is carried as a count of quarter ticks. Rounding to 8 decimal
//! places is then rounding a count of quarter ticks to a whole number of
//! ticks, half away from zero.

use vstd::prelude::*;
use vstd::arithmetic::div_mod::lemma_div_multiples_vanish_fancy;
use vstd::arithmetic::div_mod::lemma_div_pos_is_pos;

verus! {

/// Largest magnitude, in ticks, that a candlestick price may have. The bound
/// leaves room for the sums the indicator lines form: a quarter-tick value is
/// at most four times this bound, and the sum of two such values still fits
/// in an `i64`.
pub const PRICE_LIMIT: i64 = 1_000_000_000_000_000_000;

/// Rounding to 8 decimal places: `q` counts quarter ticks, the result counts
/// whole ticks, and halves round away from zero.
pub open spec fn round8_q(q: int) -> int {
    if q >= 0 {
        (q + 2) / 4
    } else {
        -(((-q) + 2) / 4)
    }
}

/// Executable rounding to 8 decimal places over quarter ticks.
pub fn round8_quarter_ticks(q: i64) -> (r: i64)
    requires
        -4 * PRICE_LIMIT <= q <= 4 * PRICE_LIMIT,
    ensures
        r == round8_q(q as int),
{
    if q >= 0 {
        let m: u64 = q as u64;
        ((m + 2) / 4) as i64
    } else {
        let m: u64 = (-q) as u64;
        -(((m + 2) / 4) as i64)
    }
}

/// Rounding to 8 decimal places is idempotent: rounding a value that is
/// already a whole number of ticks changes nothing, so rounding twice gives
/// the same result as rounding once.
pub proof fn lemma_round8_idempotent(q: int)
    ensures
        round8_q(4 * round8_q(q)) == round8_q(q),
{
    let r = round8_q(q);
    if q >= 0 {
        lemma_div_pos_is_pos(q + 2, 4);
        assert(r >= 0);
        lemma_div_multiples_vanish_fancy(r, 2, 4);
        assert((4 * r + 2) / 4 == r);
    } else {
        lemma_div_pos_is_pos((-q) + 2, 4);
        assert(r <= 0);
        if r == 0 {
            assert(round8_q(0) == 2int / 4int);
        } else {
            lemma_div_multiples_vanish_fancy(-r, 2, 4);
            assert((4 * (-r) + 2) / 4 == -r);
            assert(-(4 * r) == 4 * (-r));
        }
    }
}

} // verus!
