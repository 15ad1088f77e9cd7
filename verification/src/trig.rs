//! Fixed-point trigonometry on milli-degree angles, used to place orbiting
//! obstacles on a planet's rim. Sine is computed with Bhaskara's rational
//! approximation on the half turn and extended to the full circle by sign;
//! results are scaled by `TRIG_UNIT`.

use vstd::prelude::*;

verus! {

use crate::{FULL_TURN, HALF_TURN, QUARTER_TURN, TRIG_UNIT};

/// Largest angle magnitude, in milli-degrees, that the trig functions accept.
pub const ANGLE_LIMIT: i64 = 1_000_000_000_000;

/// Bhaskara's rational sine approximation on `[0, HALF_TURN]`, scaled by
/// `TRIG_UNIT`; exact at 0, a quarter turn, and a half turn.
pub open spec fn half_sine(m: int) -> int {
    4 * (m * (HALF_TURN - m)) * TRIG_UNIT / (40_500_000_000 - m * (HALF_TURN - m))
}

/// Sine of a milli-degree angle, scaled by `TRIG_UNIT`.
pub open spec fn sine_spec(m: int) -> int {
    let n = m % (FULL_TURN as int);
    if n <= HALF_TURN {
        half_sine(n)
    } else {
        -half_sine(n - HALF_TURN)
    }
}

/// Cosine of a milli-degree angle, scaled by `TRIG_UNIT`.
pub open spec fn cosine_spec(m: int) -> int {
    sine_spec(m + QUARTER_TURN)
}

/// Reduces an angle to `[0, FULL_TURN)`, keeping its congruence class.
pub fn norm_angle(m: i64) -> (r: i64)
    requires
        -ANGLE_LIMIT <= m <= ANGLE_LIMIT,
    ensures
        r == (m as int) % (FULL_TURN as int),
        0 <= r < FULL_TURN,
{
    if m >= 0 {
        let r: u64 = (m as u64) % 360_000;
        r as i64
    } else {
        let p: u64 = (-m) as u64;
        let k: u64 = p % 360_000;
        proof {
            vstd::arithmetic::div_mod::lemma_fundamental_div_mod(p as int, 360_000);
            if k == 0 {
                vstd::arithmetic::div_mod::lemma_fundamental_div_mod_converse_mod(
                    m as int,
                    360_000,
                    -((p as int) / 360_000),
                    0,
                );
            } else {
                vstd::arithmetic::div_mod::lemma_fundamental_div_mod_converse_mod(
                    m as int,
                    360_000,
                    -((p as int) / 360_000) - 1,
                    360_000 - (k as int),
                );
            }
        }
        if k == 0 {
            0
        } else {
            360_000 - (k as i64)
        }
    }
}

/// Bhaskara's sine on the first half turn.
fn sine_half(m: i64) -> (r: i64)
    requires
        0 <= m <= HALF_TURN,
    ensures
        r == half_sine(m as int),
        0 <= r <= TRIG_UNIT,
{
    proof {
        assert(0 <= m * (HALF_TURN - m) <= 8_100_000_000) by (nonlinear_arith)
            requires
                0 <= m <= HALF_TURN,
                HALF_TURN == 180_000,
        ;
    }
    let q: i64 = m * (HALF_TURN - m);
    let num: u64 = 4 * (q as u64) * (TRIG_UNIT as u64);
    let den: u64 = 40_500_000_000 - (q as u64);
    let r: u64 = num / den;
    proof {
        assert((num as int) <= (den as int) * TRIG_UNIT) by (nonlinear_arith)
            requires
                num == 4 * q * TRIG_UNIT,
                den == 40_500_000_000 - q,
                0 <= q <= 8_100_000_000,
                TRIG_UNIT == 1_000_000,
        ;
        vstd::arithmetic::div_mod::lemma_div_is_ordered(
            num as int,
            (den as int) * TRIG_UNIT,
            den as int,
        );
        vstd::arithmetic::div_mod::lemma_div_multiples_vanish(TRIG_UNIT as int, den as int);
        assert((den as int) * TRIG_UNIT == TRIG_UNIT * (den as int)) by (nonlinear_arith);
        vstd::arithmetic::div_mod::lemma_div_pos_is_pos(num as int, den as int);
    }
    r as i64
}

/// Sine of a milli-degree angle, scaled by `TRIG_UNIT`.
pub fn sine(m: i64) -> (r: i64)
    requires
        -ANGLE_LIMIT <= m <= ANGLE_LIMIT,
    ensures
        r == sine_spec(m as int),
        -TRIG_UNIT <= r <= TRIG_UNIT,
{
    let n = norm_angle(m);
    if n <= HALF_TURN {
        sine_half(n)
    } else {
        -sine_half(n - HALF_TURN)
    }
}

/// Cosine of a milli-degree angle, scaled by `TRIG_UNIT`.
pub fn cosine(m: i64) -> (r: i64)
    requires
        -ANGLE_LIMIT <= m <= ANGLE_LIMIT - QUARTER_TURN,
    ensures
        r == cosine_spec(m as int),
        -TRIG_UNIT <= r <= TRIG_UNIT,
{
    sine(m + QUARTER_TURN)
}

} // verus!
