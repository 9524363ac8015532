//! Fixed-point micro-unit arithmetic shared by the whole engine.
//!
//! A value of `UNIT` (one million) stands for the real number `1.0`; all
//! rewards, Q-values and probabilities are integers at this scale.

use vstd::arithmetic::div_mod::{
    lemma_div_is_ordered, lemma_div_nonincreasing, lemma_div_pos_is_pos,
};
use vstd::prelude::*;

verus! {

/// One whole unit: the fixed-point encoding of `1.0`.
pub const UNIT: i64 = 1000000;

/// Clamp a micro-unit value into `[-1.0, 1.0]`.
pub open spec fn clamp_unit_spec(x: int) -> int {
    if x > UNIT as int {
        UNIT as int
    } else if x < -(UNIT as int) {
        -(UNIT as int)
    } else {
        x
    }
}

/// Clamp a micro-unit value into `[-1.0, 1.0]`.
pub fn clamp_unit(x: i64) -> (r: i64)
    ensures
        r as int == clamp_unit_spec(x as int),
{
    if x > UNIT {
        UNIT
    } else if x < -UNIT {
        -UNIT
    } else {
        x
    }
}

/// Division that truncates toward zero, as machine division does.
pub open spec fn tdiv(x: int, d: int) -> int
    recommends
        d > 0,
{
    if x >= 0 {
        x / d
    } else {
        -((-x) / d)
    }
}

/// Truncating division never grows a value's magnitude.
pub proof fn lemma_tdiv_bounds(x: int, d: int)
    requires
        d > 0,
    ensures
        x >= 0 ==> 0 <= tdiv(x, d) <= x,
        x < 0 ==> x <= tdiv(x, d) <= 0,
{
    if x >= 0 {
        lemma_div_pos_is_pos(x, d);
        lemma_div_nonincreasing(x, d);
    } else {
        lemma_div_pos_is_pos(-x, d);
        lemma_div_nonincreasing(-x, d);
    }
}

/// Truncating division is monotone in the dividend.
pub proof fn lemma_tdiv_ordered(x: int, y: int, d: int)
    requires
        d > 0,
        x <= y,
    ensures
        tdiv(x, d) <= tdiv(y, d),
{
    if x >= 0 {
        lemma_div_is_ordered(x, y, d);
    } else if y < 0 {
        lemma_div_is_ordered(-y, -x, d);
    } else {
        lemma_tdiv_bounds(x, d);
        lemma_tdiv_bounds(y, d);
    }
}

/// Division truncating toward zero, the exact counterpart of `tdiv`.
pub fn tdiv_i64(x: i64, d: i64) -> (r: i64)
    requires
        d > 0,
        x > i64::MIN,
    ensures
        r == tdiv(x as int, d as int),
        x >= 0 ==> 0 <= r <= x,
        x < 0 ==> x <= r <= 0,
{
    proof {
        lemma_tdiv_bounds(x as int, d as int);
    }
    if x >= 0 {
        x / d
    } else {
        -((-x) / d)
    }
}

} // verus!
