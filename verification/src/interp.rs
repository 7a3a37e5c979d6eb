use vstd::prelude::*;

use vstd::arithmetic::div_mod::lemma_fundamental_div_mod;
use vstd::arithmetic::div_mod::lemma_fundamental_div_mod_converse;
use vstd::arithmetic::div_mod::lemma_mod_bound;

use crate::cubicle::Cubicle;
use crate::units::Current;
use crate::units::Distance;
use crate::units::Energy;
use crate::units::Voltage;

verus! {

/// Millivolt width of the 0.6 kV to 2.7 kV reference band.
pub const BAND_LOW_MV: i128 = 2_100_000;

/// Millivolt width of the 2.7 kV to 14.3 kV reference band.
pub const BAND_HIGH_MV: i128 = 11_600_000;

/// Product of the two band widths with the low width squared: the common
/// denominator of the blended branch.
pub const BLEND_DEN: i128 = 51_156_000_000_000_000_000;

/// Largest magnitude a band value may have on entry to [`interpolate`];
/// keeps every intermediate product inside an `i128`.
pub const INTERPOLATE_BOUND: i64 = 1_000_000_000_000_000;

/// Numerator of the 2.7 kV-anchored line, over denominator [`BAND_LOW_MV`]:
/// `x_2700 + (x_2700 - x_600) / 2.1 * (v - 2.7)` with the voltage in
/// millivolts and every band value at the caller's scale.
pub open spec fn x1_num(mv: int, x_600: int, x_2700: int) -> int {
    x_2700 * BAND_LOW_MV + (x_2700 - x_600) * (mv - 2_700_000)
}

/// Numerator of the 14.3 kV-anchored line, over denominator
/// [`BAND_HIGH_MV`]: `x_14300 + (x_14300 - x_2700) / 11.6 * (v - 14.3)`.
pub open spec fn x2_num(mv: int, x_2700: int, x_14300: int) -> int {
    x_14300 * BAND_HIGH_MV + (x_14300 - x_2700) * (mv - 14_300_000)
}

/// Numerator of the blended value used on the low side, over denominator
/// [`BLEND_DEN`]: `x1 * (2.7 - v) / 2.1 + x2 * (v - 0.6) / 2.1`.
pub open spec fn x3_num(mv: int, x_600: int, x_2700: int, x_14300: int) -> int {
    x1_num(mv, x_600, x_2700) * BAND_HIGH_MV * (2_700_000 - mv)
        + x2_num(mv, x_2700, x_14300) * BAND_LOW_MV * (mv - 600_000)
}

/// The exact interpolated value, rounded toward minus infinity at the
/// caller's scale. Defined only strictly above 0.6 kV: voltages in
/// `(0.6 kV, 2.7 kV]` take the blended branch, voltages above 2.7 kV take
/// the 14.3 kV-anchored line. Nothing is promised at the band anchors
/// themselves beyond what these formulas give.
pub open spec fn spec_interpolate(mv: int, x_600: int, x_2700: int, x_14300: int) -> int
    recommends
        600_000 < mv,
{
    if mv <= 2_700_000 {
        x3_num(mv, x_600, x_2700, x_14300) / (BLEND_DEN as int)
    } else {
        x2_num(mv, x_2700, x_14300) / (BAND_HIGH_MV as int)
    }
}

/// Division rounding toward minus infinity, matching spec division by a
/// positive divisor.
fn floor_div(n: i128, d: i128) -> (q: i128)
    requires
        0 < d,
        i128::MIN < n,
    ensures
        q == n as int / d as int,
{
    if n >= 0 {
        let nn: u128 = n as u128;
        let dd: u128 = d as u128;
        let q0: u128 = nn / dd;
        proof {
            lemma_fundamental_div_mod(nn as int, dd as int);
            lemma_mod_bound(nn as int, dd as int);
            assert(q0 <= nn) by (nonlinear_arith)
                requires
                    nn as int == dd as int * (q0 as int) + nn as int % dd as int,
                    0 <= nn as int % dd as int,
                    dd >= 1,
                    q0 >= 0;
        }
        q0 as i128
    } else {
        let nn: u128 = (-n) as u128;
        let dd: u128 = d as u128;
        let q0: u128 = nn / dd;
        let r0: u128 = nn % dd;
        proof {
            lemma_fundamental_div_mod(nn as int, dd as int);
            lemma_mod_bound(nn as int, dd as int);
            assert(q0 <= nn) by (nonlinear_arith)
                requires
                    nn as int == dd as int * (q0 as int) + r0 as int,
                    0 <= r0,
                    dd >= 1,
                    q0 >= 0;
            if r0 == 0 {
                assert(n as int == (-(q0 as int)) * (d as int) + 0) by (nonlinear_arith)
                    requires
                        nn as int == dd as int * (q0 as int) + r0 as int,
                        r0 == 0,
                        n as int == -(nn as int),
                        dd as int == d as int;
                lemma_fundamental_div_mod_converse(n as int, d as int, -(q0 as int), 0);
            } else {
                assert(n as int == (-(q0 as int) - 1) * (d as int) + (d as int - r0 as int))
                    by (nonlinear_arith)
                    requires
                        nn as int == dd as int * (q0 as int) + r0 as int,
                        n as int == -(nn as int),
                        dd as int == d as int;
                lemma_fundamental_div_mod_converse(
                    n as int,
                    d as int,
                    -(q0 as int) - 1,
                    d as int - r0 as int,
                );
            }
        }
        if r0 == 0 {
            -(q0 as i128)
        } else {
            -(q0 as i128) - 1
        }
    }
}

/// Piecewise-linear interpolation across the three reference voltage bands,
/// identical for currents, energies and lengths: the caller picks the scale
/// and the result comes back at the same scale, rounded toward minus
/// infinity. The formula is undefined at and below 0.6 kV — profile
/// construction guarantees the high-voltage path never calls it there — so
/// the domain is strictly `(0.6 kV, 2.7 kV]` for the blended branch and
/// `(2.7 kV, 15 kV]` for the high branch.
pub fn interpolate(v_oc: Voltage, x_600: i64, x_2700: i64, x_14300: i64) -> (r: i64)
    requires
        600_000 < v_oc.mv <= 15_000_000,
        -INTERPOLATE_BOUND <= x_600 <= INTERPOLATE_BOUND,
        -INTERPOLATE_BOUND <= x_2700 <= INTERPOLATE_BOUND,
        -INTERPOLATE_BOUND <= x_14300 <= INTERPOLATE_BOUND,
    ensures
        r == spec_interpolate(v_oc.mv as int, x_600 as int, x_2700 as int, x_14300 as int),
{
    let m: i128 = v_oc.mv as i128;
    let a6: i128 = x_600 as i128;
    let a27: i128 = x_2700 as i128;
    let a143: i128 = x_14300 as i128;

    let d27: i128 = a27 - a6;
    let m27: i128 = m - 2_700_000;
    proof {
        assert(d27 * m27 <= 30_000_000_000_000_000_000_000i128 && d27 * m27
            >= -30_000_000_000_000_000_000_000i128) by (nonlinear_arith)
            requires
                -2_000_000_000_000_000 <= d27 <= 2_000_000_000_000_000,
                -15_000_000 <= m27 <= 15_000_000;
    }
    let x1n: i128 = a27 * 2_100_000i128 + d27 * m27;

    let d143: i128 = a143 - a27;
    let m143: i128 = m - 14_300_000;
    proof {
        assert(d143 * m143 <= 30_000_000_000_000_000_000_000i128 && d143 * m143
            >= -30_000_000_000_000_000_000_000i128) by (nonlinear_arith)
            requires
                -2_000_000_000_000_000 <= d143 <= 2_000_000_000_000_000,
                -15_000_000 <= m143 <= 15_000_000;
    }
    let x2n: i128 = a143 * 11_600_000i128 + d143 * m143;

    if v_oc.mv <= 2_700_000 {
        let w1: i128 = x1n * 11_600_000i128;
        let w2: i128 = x2n * 2_100_000i128;
        let low: i128 = 2_700_000 - m;
        let high: i128 = m - 600_000;
        proof {
            assert(w1 * low <= 900_000_000_000_000_000_000_000_000_000_000_000i128 && w1 * low
                >= -900_000_000_000_000_000_000_000_000_000_000_000i128) by (nonlinear_arith)
                requires
                    -400_000_000_000_000_000_000_000_000_000i128 <= w1
                        <= 400_000_000_000_000_000_000_000_000_000i128,
                    0 <= low < 2_100_000;
            assert(w2 * high <= 300_000_000_000_000_000_000_000_000_000_000_000i128 && w2 * high
                >= -300_000_000_000_000_000_000_000_000_000_000_000i128) by (nonlinear_arith)
                requires
                    -100_000_000_000_000_000_000_000_000_000i128 <= w2
                        <= 100_000_000_000_000_000_000_000_000_000i128,
                    0 < high <= 2_100_000;
        }
        let num: i128 = w1 * low + w2 * high;
        let q: i128 = floor_div(num, BLEND_DEN);
        proof {
            lemma_fundamental_div_mod(num as int, BLEND_DEN as int);
            lemma_mod_bound(num as int, BLEND_DEN as int);
            assert(-9_000_000_000_000_000_000 < q < 9_000_000_000_000_000_000) by (nonlinear_arith)
                requires
                    51_156_000_000_000_000_000 * q + num as int % 51_156_000_000_000_000_000int
                        == num,
                    0 <= num as int % 51_156_000_000_000_000_000int < 51_156_000_000_000_000_000int,
                    -2_000_000_000_000_000_000_000_000_000_000_000_000i128 <= num
                        <= 2_000_000_000_000_000_000_000_000_000_000_000_000i128;
        }
        q as i64
    } else {
        let q: i128 = floor_div(x2n, BAND_HIGH_MV);
        proof {
            lemma_fundamental_div_mod(x2n as int, BAND_HIGH_MV as int);
            lemma_mod_bound(x2n as int, BAND_HIGH_MV as int);
            assert(-9_000_000_000_000_000_000 < q < 9_000_000_000_000_000_000) by (nonlinear_arith)
                requires
                    11_600_000 * q + x2n as int % 11_600_000int == x2n,
                    0 <= x2n as int % 11_600_000int < 11_600_000int,
                    -50_000_000_000_000_000_000_000i128 <= x2n <= 50_000_000_000_000_000_000_000i128;
        }
        q as i64
    }
}

/// [`interpolate`] with the magnitude bound tested instead of demanded: the
/// result is `None` exactly when some band value lies outside
/// [`INTERPOLATE_BOUND`].
pub fn interpolate_checked(v_oc: Voltage, x_600: i64, x_2700: i64, x_14300: i64) -> (r: Option<
    i64,
>)
    requires
        600_000 < v_oc.mv <= 15_000_000,
    ensures
        (r is Some) == (-INTERPOLATE_BOUND <= x_600 <= INTERPOLATE_BOUND
            && -INTERPOLATE_BOUND <= x_2700 <= INTERPOLATE_BOUND && -INTERPOLATE_BOUND <= x_14300
            <= INTERPOLATE_BOUND),
        r matches Some(x) ==> x == spec_interpolate(
            v_oc.mv as int,
            x_600 as int,
            x_2700 as int,
            x_14300 as int,
        ),
{
    if -INTERPOLATE_BOUND <= x_600 && x_600 <= INTERPOLATE_BOUND && -INTERPOLATE_BOUND <= x_2700
        && x_2700 <= INTERPOLATE_BOUND && -INTERPOLATE_BOUND <= x_14300 && x_14300
        <= INTERPOLATE_BOUND {
        Some(interpolate(v_oc, x_600, x_2700, x_14300))
    } else {
        None
    }
}

/// The interpolated value with a negative extrapolation clamped at zero:
/// the stored quantities are nonnegative, and no model-range input drives
/// the interpolation below zero.
pub open spec fn spec_interpolate_clamped(mv: int, x_600: int, x_2700: int, x_14300: int) -> int {
    let x = spec_interpolate(mv, x_600, x_2700, x_14300);
    if x < 0 {
        0
    } else {
        x
    }
}

/// Band interpolation of currents for a high-voltage profile.
pub fn interpolate_c(c: &Cubicle, x_600: Current, x_2700: Current, x_14300: Current) -> (r: Current)
    requires
        c.wf(),
        c.hv,
        x_600.ma <= INTERPOLATE_BOUND,
        x_2700.ma <= INTERPOLATE_BOUND,
        x_14300.ma <= INTERPOLATE_BOUND,
    ensures
        r.ma == spec_interpolate_clamped(
            c.v_oc.mv as int,
            x_600.ma as int,
            x_2700.ma as int,
            x_14300.ma as int,
        ),
{
    let v = interpolate(c.v_oc, x_600.ma as i64, x_2700.ma as i64, x_14300.ma as i64);
    if v < 0 {
        Current { ma: 0 }
    } else {
        Current { ma: v as u64 }
    }
}

/// Band interpolation of incident energies for a high-voltage profile.
pub fn interpolate_e(c: &Cubicle, x_600: Energy, x_2700: Energy, x_14300: Energy) -> (r: Energy)
    requires
        c.wf(),
        c.hv,
        x_600.njcm2 <= INTERPOLATE_BOUND,
        x_2700.njcm2 <= INTERPOLATE_BOUND,
        x_14300.njcm2 <= INTERPOLATE_BOUND,
    ensures
        r.njcm2 == spec_interpolate_clamped(
            c.v_oc.mv as int,
            x_600.njcm2 as int,
            x_2700.njcm2 as int,
            x_14300.njcm2 as int,
        ),
{
    let v = interpolate(c.v_oc, x_600.njcm2 as i64, x_2700.njcm2 as i64, x_14300.njcm2 as i64);
    if v < 0 {
        Energy { njcm2: 0 }
    } else {
        Energy { njcm2: v as u64 }
    }
}

/// Band interpolation of lengths — arc-flash boundaries — for a
/// high-voltage profile.
pub fn interpolate_l(c: &Cubicle, x_600: Distance, x_2700: Distance, x_14300: Distance) -> (r:
    Distance)
    requires
        c.wf(),
        c.hv,
        x_600.um <= INTERPOLATE_BOUND,
        x_2700.um <= INTERPOLATE_BOUND,
        x_14300.um <= INTERPOLATE_BOUND,
    ensures
        r.um == spec_interpolate_clamped(
            c.v_oc.mv as int,
            x_600.um as int,
            x_2700.um as int,
            x_14300.um as int,
        ),
{
    let v = interpolate(c.v_oc, x_600.um as i64, x_2700.um as i64, x_14300.um as i64);
    if v < 0 {
        Distance { um: 0 }
    } else {
        Distance { um: v as u64 }
    }
}

/// Interpolation distributes over sums of band values: interpolating the
/// per-band sums of two contributions gives the sum of the two
/// interpolations, exactly, before the final rounding. This is the algebra
/// that lets the multistep aggregation add per-band energies across steps
/// and interpolate once at the end.
pub proof fn lemma_interpolate_additive(
    mv: int,
    a_600: int,
    a_2700: int,
    a_14300: int,
    b_600: int,
    b_2700: int,
    b_14300: int,
)
    ensures
        x2_num(mv, a_2700 + b_2700, a_14300 + b_14300) == x2_num(mv, a_2700, a_14300) + x2_num(
            mv,
            b_2700,
            b_14300,
        ),
        x3_num(mv, a_600 + b_600, a_2700 + b_2700, a_14300 + b_14300) == x3_num(
            mv,
            a_600,
            a_2700,
            a_14300,
        ) + x3_num(mv, b_600, b_2700, b_14300),
{
    assert((a_2700 + b_2700) * 2_100_000 + ((a_2700 + b_2700) - (a_600 + b_600)) * (mv - 2_700_000)
        == (a_2700 * 2_100_000 + (a_2700 - a_600) * (mv - 2_700_000)) + (b_2700 * 2_100_000 + (
        b_2700 - b_600) * (mv - 2_700_000))) by (nonlinear_arith);
    assert((a_14300 + b_14300) * 11_600_000 + ((a_14300 + b_14300) - (a_2700 + b_2700)) * (mv
        - 14_300_000) == (a_14300 * 11_600_000 + (a_14300 - a_2700) * (mv - 14_300_000)) + (b_14300
        * 11_600_000 + (b_14300 - b_2700) * (mv - 14_300_000))) by (nonlinear_arith);
    let x1a = x1_num(mv, a_600, a_2700);
    let x1b = x1_num(mv, b_600, b_2700);
    let x2a = x2_num(mv, a_2700, a_14300);
    let x2b = x2_num(mv, b_2700, b_14300);
    assert(x1_num(mv, a_600 + b_600, a_2700 + b_2700) == x1a + x1b);
    assert(x2_num(mv, a_2700 + b_2700, a_14300 + b_14300) == x2a + x2b);
    assert((x1a + x1b) * 11_600_000 * (2_700_000 - mv) + (x2a + x2b) * 2_100_000 * (mv - 600_000)
        == (x1a * 11_600_000 * (2_700_000 - mv) + x2a * 2_100_000 * (mv - 600_000)) + (x1b
        * 11_600_000 * (2_700_000 - mv) + x2b * 2_100_000 * (mv - 600_000))) by (nonlinear_arith);
}

} // verus!
