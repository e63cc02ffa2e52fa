//! Absolute humidity from temperature and relative humidity.
//!
//! The Magnus-Tetens approximation gives the saturation vapor pressure
//! at a temperature T (degrees Celsius); scaling it by the relative
//! humidity and the molecular weight of water yields the absolute
//! humidity in grams per cubic meter:
//!
//! `AH = (6.112 · exp(17.64·T/(T+243.5)) · RH · 2.1674) / (273.15 + T)`
//!
//! Everything here is integer arithmetic on milli-units: the exponent is
//! carried in micro-units and its exponential is computed as
//! `e^k · e^f` with `k` the floor and `f` the fractional part, `e^f`
//! by a nine-term Taylor series. The result is exact with respect to the
//! specification functions below, which mirror this fixed-point scheme.

use vstd::prelude::*;
use vstd::arithmetic::div_mod::{
    lemma_div_is_ordered, lemma_div_is_ordered_by_denominator, lemma_div_multiples_vanish,
    lemma_div_pos_is_pos, lemma_fundamental_div_mod,
};

verus! {

/// The exponent `17.64·T/(T+243.5)` in micro-units, for a temperature
/// in milli-degrees Celsius. The division truncates toward zero, as the
/// machine division below does.
pub open spec fn spec_exponent_micro(temp_milli: int) -> int {
    if temp_milli >= 0 {
        17_640_000 * temp_milli / (temp_milli + 243_500)
    } else {
        -(17_640_000 * (-temp_milli) / (temp_milli + 243_500))
    }
}

/// `e^f` in micro-units for `0 <= f < 1` in micro-units: nine Taylor
/// terms, each truncated.
pub open spec fn spec_exp_frac_micro(f: int) -> int {
    let t1 = f;
    let t2 = t1 * f / 2_000_000;
    let t3 = t2 * f / 3_000_000;
    let t4 = t3 * f / 4_000_000;
    let t5 = t4 * f / 5_000_000;
    let t6 = t5 * f / 6_000_000;
    let t7 = t6 * f / 7_000_000;
    let t8 = t7 * f / 8_000_000;
    let t9 = t8 * f / 9_000_000;
    1_000_000 + t1 + t2 + t3 + t4 + t5 + t6 + t7 + t8 + t9
}

/// `e^k` in micro-units for the integer exponents that can arise.
pub open spec fn spec_exp_int_micro(k: int) -> int {
    if k <= -6 {
        2_478
    } else if k == -5 {
        6_737
    } else if k == -4 {
        18_315
    } else if k == -3 {
        49_787
    } else if k == -2 {
        135_335
    } else if k == -1 {
        367_879
    } else if k == 0 {
        1_000_000
    } else if k == 1 {
        2_718_281
    } else if k == 2 {
        7_389_056
    } else if k == 3 {
        20_085_536
    } else if k == 4 {
        54_598_150
    } else {
        148_413_159
    }
}

/// `e^x` in micro-units for an exponent in micro-units.
pub open spec fn spec_exp_micro(x: int) -> int {
    let k = x / 1_000_000;  // euclidean, so this floors for negative x
    let f = x % 1_000_000;
    spec_exp_int_micro(k) * spec_exp_frac_micro(f) / 1_000_000
}

/// Absolute humidity in milli-grams per cubic meter. The constant is
/// `6.112 · 2.1674` carried as `132471488 / 10^7`; combined with the
/// micro-scaled exponential and milli-scaled inputs, one division by
/// `10^10 · (273150 + t)` yields milli-units.
pub open spec fn spec_absolute_humidity_millis(temp_milli: int, rh_milli: int) -> int {
    132_471_488 * spec_exp_micro(spec_exponent_micro(temp_milli)) * rh_milli / (10_000_000_000
        * (273_150 + temp_milli))
}

/// The temperatures the approximation accepts: ordinary atmospheric
/// range, safely away from the formula's pole at -243.5 °C.
pub open spec fn spec_temp_in_range(temp_milli: int) -> bool {
    -60_000 <= temp_milli <= 100_000
}

/// `e^f` in micro-units for a fractional exponent in micro-units.
fn exp_frac_micro(f: u64) -> (r: u64)
    requires
        f < 1_000_000,
    ensures
        r as int == spec_exp_frac_micro(f as int),
        1_000_000 <= r <= 2_800_000,
{
    let t1: u64 = f;
    proof {
        assert(t1 * f <= 1_000_000_000_000) by (nonlinear_arith)
            requires
                t1 <= 1_000_000 && f <= 1_000_000,
        ;
        lemma_div_is_ordered(t1 as int * f as int, 1_000_000_000_000, 2_000_000);
    }
    let t2: u64 = t1 * f / 2_000_000;
    proof {
        assert(t2 * f <= 500_000_000_000) by (nonlinear_arith)
            requires
                t2 <= 500_000 && f <= 1_000_000,
        ;
        lemma_div_is_ordered(t2 as int * f as int, 500_000_000_000, 3_000_000);
    }
    let t3: u64 = t2 * f / 3_000_000;
    proof {
        assert(t3 * f <= 166_666_000_000) by (nonlinear_arith)
            requires
                t3 <= 166_666 && f <= 1_000_000,
        ;
        lemma_div_is_ordered(t3 as int * f as int, 166_666_000_000, 4_000_000);
    }
    let t4: u64 = t3 * f / 4_000_000;
    proof {
        assert(t4 * f <= 41_666_000_000) by (nonlinear_arith)
            requires
                t4 <= 41_666 && f <= 1_000_000,
        ;
        lemma_div_is_ordered(t4 as int * f as int, 41_666_000_000, 5_000_000);
    }
    let t5: u64 = t4 * f / 5_000_000;
    proof {
        assert(t5 * f <= 8_333_000_000) by (nonlinear_arith)
            requires
                t5 <= 8_333 && f <= 1_000_000,
        ;
        lemma_div_is_ordered(t5 as int * f as int, 8_333_000_000, 6_000_000);
    }
    let t6: u64 = t5 * f / 6_000_000;
    proof {
        assert(t6 * f <= 1_388_000_000) by (nonlinear_arith)
            requires
                t6 <= 1_388 && f <= 1_000_000,
        ;
        lemma_div_is_ordered(t6 as int * f as int, 1_388_000_000, 7_000_000);
    }
    let t7: u64 = t6 * f / 7_000_000;
    proof {
        assert(t7 * f <= 198_000_000) by (nonlinear_arith)
            requires
                t7 <= 198 && f <= 1_000_000,
        ;
        lemma_div_is_ordered(t7 as int * f as int, 198_000_000, 8_000_000);
    }
    let t8: u64 = t7 * f / 8_000_000;
    proof {
        assert(t8 * f <= 24_000_000) by (nonlinear_arith)
            requires
                t8 <= 24 && f <= 1_000_000,
        ;
        lemma_div_is_ordered(t8 as int * f as int, 24_000_000, 9_000_000);
    }
    let t9: u64 = t8 * f / 9_000_000;
    1_000_000 + t1 + t2 + t3 + t4 + t5 + t6 + t7 + t8 + t9
}

/// `e^k` in micro-units.
fn exp_int_micro(k: i64) -> (r: u64)
    ensures
        r as int == spec_exp_int_micro(k as int),
        2_478 <= r <= 148_413_159,
{
    if k <= -6 {
        2_478
    } else if k == -5 {
        6_737
    } else if k == -4 {
        18_315
    } else if k == -3 {
        49_787
    } else if k == -2 {
        135_335
    } else if k == -1 {
        367_879
    } else if k == 0 {
        1_000_000
    } else if k == 1 {
        2_718_281
    } else if k == 2 {
        7_389_056
    } else if k == 3 {
        20_085_536
    } else if k == 4 {
        54_598_150
    } else {
        148_413_159
    }
}

/// `e^x` in micro-units for an exponent in micro-units.
fn exp_micro(x: i64) -> (r: u64)
    requires
        -6_000_000 <= x <= 5_999_999,
    ensures
        r as int == spec_exp_micro(x as int),
        r <= 420_000_000,
{
    let (k, f): (i64, u64) = if x >= 0 {
        (x / 1_000_000, (x % 1_000_000) as u64)
    } else {
        // floor division for the negative exponent
        let m: u64 = (-x) as u64;
        let kneg: u64 = (m + 999_999) / 1_000_000;
        let k: i64 = -(kneg as i64);
        proof {
            lemma_fundamental_div_mod((m + 999_999) as int, 1_000_000);
            lemma_mod_range((m + 999_999) as int, 1_000_000);
            assert(k * 1_000_000 <= x as int && (x as int) < k * 1_000_000 + 1_000_000);
            lemma_fundamental_div_mod(x as int, 1_000_000);
            lemma_mod_range(x as int, 1_000_000);
            assert(x as int / 1_000_000 == k as int) by (nonlinear_arith)
                requires
                    k as int * 1_000_000 <= x as int && (x as int) < k as int * 1_000_000
                        + 1_000_000,
                    x as int == 1_000_000 * (x as int / 1_000_000) + (x as int % 1_000_000),
                    0 <= x as int % 1_000_000 < 1_000_000,
            ;
        }
        let f: u64 = (x - k * 1_000_000) as u64;
        (k, f)
    };
    proof {
        if x >= 0 {
            lemma_fundamental_div_mod(x as int, 1_000_000);
            lemma_mod_range(x as int, 1_000_000);
        }
    }
    let ek = exp_int_micro(k);
    let ef = exp_frac_micro(f);
    proof {
        assert(ek * ef <= 415_556_845_200_000) by (nonlinear_arith)
            requires
                ek <= 148_413_159 && ef <= 2_800_000,
        ;
        lemma_div_is_ordered(ek as int * ef as int, 415_556_845_200_000, 1_000_000);
    }
    let r: u64 = ek * ef / 1_000_000;
    r
}

/// The remainder of a euclidean division by a positive constant lies in
/// `[0, divisor)`.
proof fn lemma_mod_range(x: int, d: int)
    requires
        0 < d,
    ensures
        0 <= x % d < d,
{
    vstd::arithmetic::div_mod::lemma_mod_bound(x, d);
}

/// Absolute humidity, in milli-grams per cubic meter, from a
/// temperature in milli-degrees Celsius and a relative humidity in
/// milli-percent.
pub fn absolute_humidity_millis(temp_milli: i64, rh_milli: i64) -> (r: i64)
    requires
        spec_temp_in_range(temp_milli as int),
        0 <= rh_milli <= 100_000,
    ensures
        r as int == spec_absolute_humidity_millis(temp_milli as int, rh_milli as int),
        r >= 0,
{
    let x: i64 = if temp_milli >= 0 {
        proof {
            assert(17_640_000 * temp_milli <= 5_999_999 * (temp_milli + 243_500))
                by (nonlinear_arith)
                requires
                    0 <= temp_milli <= 100_000,
            ;
            lemma_div_pos_is_pos(17_640_000 * temp_milli as int, temp_milli as int + 243_500);
            lemma_div_is_ordered(
                17_640_000 * temp_milli as int,
                5_999_999 * (temp_milli as int + 243_500),
                temp_milli as int + 243_500,
            );
            lemma_div_multiples_vanish(5_999_999, temp_milli as int + 243_500);
        }
        (17_640_000i64 * temp_milli) / (temp_milli + 243_500)
    } else {
        proof {
            assert(17_640_000 * (-temp_milli) <= 5_999_999 * (temp_milli + 243_500))
                by (nonlinear_arith)
                requires
                    -60_000 <= temp_milli < 0,
            ;
            lemma_div_pos_is_pos(
                17_640_000 * (-temp_milli as int),
                temp_milli as int + 243_500,
            );
            lemma_div_is_ordered(
                17_640_000 * (-temp_milli as int),
                5_999_999 * (temp_milli as int + 243_500),
                temp_milli as int + 243_500,
            );
            lemma_div_multiples_vanish(5_999_999, temp_milli as int + 243_500);
        }
        let num: i64 = 17_640_000i64 * (-temp_milli);
        -(num / (temp_milli + 243_500))
    };
    let ex = exp_micro(x);
    let rh: u64 = rh_milli as u64;
    proof {
        assert(132_471_488 * (ex as int) * (rh as int) <= 132_471_488 * 420_000_000 * 100_000)
            by (nonlinear_arith)
            requires
                0 <= ex <= 420_000_000 && 0 <= rh <= 100_000,
        ;
    }
    let num: u128 = 132_471_488u128 * (ex as u128) * (rh as u128);
    let den: u128 = 10_000_000_000u128 * ((273_150 + temp_milli) as u128);
    proof {
        lemma_div_is_ordered(num as int, 132_471_488int * 420_000_000 * 100_000, den as int);
        lemma_div_is_ordered_by_denominator(
            132_471_488int * 420_000_000 * 100_000,
            2_131_500_000_000_000,
            den as int,
        );
    }
    let r: i64 = (num / den) as i64;
    r
}

} // verus!
