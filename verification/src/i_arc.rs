use vstd::prelude::*;

use vstd::arithmetic::div_mod::lemma_div_denominator;
use vstd::arithmetic::div_mod::lemma_div_is_ordered;
use vstd::arithmetic::div_mod::lemma_div_multiples_vanish;
use vstd::arithmetic::div_mod::lemma_fundamental_div_mod;
use vstd::arithmetic::mul::lemma_mul_inequality;

use crate::cubicle::Cubicle;
use crate::cubicle::VAR_CF_DEN;
use crate::errors::RangeError;
use crate::interp::interpolate_c;
use crate::interp::spec_interpolate_clamped;
use crate::interp::INTERPOLATE_BOUND;
use crate::rational::lemma_mul_le;
use crate::units::Current;

verus! {

/// High-voltage arcing-current result: the three intermediate currents at
/// the reference voltages (already reduced when `reduced` is set) and the
/// voltage-interpolated final current.
#[derive(PartialEq, Eq, Structural, Copy, Clone, Debug)]
pub struct IArcHV {
    pub i_bf: Current,
    pub reduced: bool,
    pub i_arc_14300: Current,
    pub i_arc_2700: Current,
    pub i_arc_600: Current,
    pub i_arc: Current,
}

/// Low-voltage arcing-current result: the 0.6 kV intermediate current —
/// never reduced, the incident-energy model wants the full value — and the
/// final low-voltage current.
#[derive(PartialEq, Eq, Structural, Copy, Clone, Debug)]
pub struct IArcLV {
    pub i_bf: Current,
    pub reduced: bool,
    pub i_arc_600: Current,
    pub i_arc: Current,
}

/// Arcing-current result, tagged by the profile's voltage class. Always
/// derived from exactly one profile and one bolted-fault current.
#[derive(PartialEq, Eq, Structural, Copy, Clone, Debug)]
pub enum IArc {
    HighVoltage(IArcHV),
    LowVoltage(IArcLV),
}

impl IArc {
    pub open spec fn spec_i_bf(self) -> Current {
        match self {
            IArc::HighVoltage(x) => x.i_bf,
            IArc::LowVoltage(x) => x.i_bf,
        }
    }

    pub open spec fn spec_reduced(self) -> bool {
        match self {
            IArc::HighVoltage(x) => x.reduced,
            IArc::LowVoltage(x) => x.reduced,
        }
    }

    pub open spec fn spec_i_arc_600(self) -> Current {
        match self {
            IArc::HighVoltage(x) => x.i_arc_600,
            IArc::LowVoltage(x) => x.i_arc_600,
        }
    }

    pub open spec fn spec_i_arc(self) -> Current {
        match self {
            IArc::HighVoltage(x) => x.i_arc,
            IArc::LowVoltage(x) => x.i_arc,
        }
    }

    /// The high-voltage payload; asking a low-voltage result for it is a
    /// caller defect, excluded here rather than detected at run time.
    pub fn hv(&self) -> (r: &IArcHV)
        requires
            self is HighVoltage,
        ensures
            *self == IArc::HighVoltage(*r),
    {
        match self {
            IArc::HighVoltage(x) => x,
            IArc::LowVoltage(_) => unreached(),
        }
    }

    /// The low-voltage payload; asking a high-voltage result for it is a
    /// caller defect, excluded here rather than detected at run time.
    pub fn lv(&self) -> (r: &IArcLV)
        requires
            self is LowVoltage,
        ensures
            *self == IArc::LowVoltage(*r),
    {
        match self {
            IArc::LowVoltage(x) => x,
            IArc::HighVoltage(_) => unreached(),
        }
    }

    pub fn i_bf(&self) -> (r: Current)
        ensures
            r == self.spec_i_bf(),
    {
        match self {
            IArc::HighVoltage(x) => x.i_bf,
            IArc::LowVoltage(x) => x.i_bf,
        }
    }

    pub fn reduced(&self) -> (r: bool)
        ensures
            r == self.spec_reduced(),
    {
        match self {
            IArc::HighVoltage(x) => x.reduced,
            IArc::LowVoltage(x) => x.reduced,
        }
    }

    pub fn i_arc_600(&self) -> (r: Current)
        ensures
            r == self.spec_i_arc_600(),
    {
        match self {
            IArc::HighVoltage(x) => x.i_arc_600,
            IArc::LowVoltage(x) => x.i_arc_600,
        }
    }

    pub fn i_arc(&self) -> (r: Current)
        ensures
            r == self.spec_i_arc(),
    {
        match self {
            IArc::HighVoltage(x) => x.i_arc,
            IArc::LowVoltage(x) => x.i_arc,
        }
    }
}

/// The reduced current `i * (1 - var_cf / 2)`, evaluated on the exact
/// variation factor carried at a scale of ten to the minus eighteenth,
/// rounding each division down.
pub open spec fn spec_i_arc_min(i: int, var_cf_num: int) -> int {
    i - (i * (var_cf_num / 100_000_000_000_000_000)) / 2_000_000_000_000_000_000
}

/// The first bolted-fault-current violation for the profile's voltage
/// class, if any: low-voltage profiles (0.208 kV to 0.6 kV) accept 0.5 kA
/// to 106 kA, high-voltage profiles accept 0.2 kA to 65 kA. Below
/// 0.208 kV the model states no range.
pub open spec fn spec_i_bf_error(c: Cubicle, i_bf: Current) -> Option<RangeError> {
    if 208_000 <= c.v_oc.mv <= 600_000 && !(500_000 <= i_bf.ma <= 106_000_000) {
        Some(
            RangeError::BoltedFaultCurrentOutOfRange {
                i_bf,
                min: Current { ma: 500_000 },
                max: Current { ma: 106_000_000 },
            },
        )
    } else if 600_000 < c.v_oc.mv <= 15_000_000 && !(200_000 <= i_bf.ma <= 65_000_000) {
        Some(
            RangeError::BoltedFaultCurrentOutOfRange {
                i_bf,
                min: Current { ma: 200_000 },
                max: Current { ma: 65_000_000 },
            },
        )
    } else {
        None
    }
}

/// Applies the arcing-current variation correction: the reduced current is
/// `i * (1 - var_cf / 2)`. For a variation factor in `[0, 1]` the result
/// never exceeds the full current and never falls below half of it.
pub fn i_arc_min(c: &Cubicle, i_arc: Current) -> (r: Current)
    requires
        c.var_cf.den == VAR_CF_DEN,
        0 <= c.var_cf.num <= VAR_CF_DEN,
    ensures
        r.ma == spec_i_arc_min(i_arc.ma as int, c.var_cf.num as int),
        r.ma <= i_arc.ma,
        2 * r.ma >= i_arc.ma,
{
    let q: u128 = (c.var_cf.num as u128) / 100_000_000_000_000_000u128;
    proof {
        lemma_div_is_ordered(
            c.var_cf.num as int,
            100_000_000_000_000_000_000_000_000_000_000_000int,
            100_000_000_000_000_000int,
        );
        lemma_div_multiples_vanish(
            1_000_000_000_000_000_000int,
            100_000_000_000_000_000int,
        );
        assert(q <= 1_000_000_000_000_000_000);
        lemma_mul_le(i_arc.ma as int, q as int, 0xffff_ffff_ffff_ffff as int, 1_000_000_000_000_000_000int);
    }
    let prod: u128 = (i_arc.ma as u128) * q;
    let sub: u128 = prod / 2_000_000_000_000_000_000u128;
    proof {
        let i = i_arc.ma as int;
        lemma_mul_inequality(q as int, 1_000_000_000_000_000_000int, i);
        assert(prod as int == i * q) by {
            vstd::arithmetic::mul::lemma_mul_is_commutative(i, q as int);
        }
        lemma_div_is_ordered(
            prod as int,
            i * 1_000_000_000_000_000_000,
            2_000_000_000_000_000_000int,
        );
        lemma_div_denominator(i * 1_000_000_000_000_000_000, 1_000_000_000_000_000_000int, 2);
        assert((i * 1_000_000_000_000_000_000) / 1_000_000_000_000_000_000int == i) by {
            lemma_div_multiples_vanish(i, 1_000_000_000_000_000_000int);
            vstd::arithmetic::mul::lemma_mul_is_commutative(i, 1_000_000_000_000_000_000int);
        }
        assert(sub <= i / 2);
        lemma_fundamental_div_mod(i, 2);
        vstd::arithmetic::div_mod::lemma_mod_bound(i, 2);
        assert(2 * (i / 2) <= i);
    }
    Current { ma: i_arc.ma - (sub as u64) }
}

/// Checks the bolted-fault current against the calculation range of the
/// profile's voltage class.
pub fn check_i_bf_range(c: &Cubicle, i_bf: Current) -> (r: Result<(), RangeError>)
    requires
        c.v_oc.mv <= 15_000_000,
    ensures
        (r is Ok) == (spec_i_bf_error(*c, i_bf) is None),
        r matches Err(e) ==> Some(e) == spec_i_bf_error(*c, i_bf),
{
    if 208_000 <= c.v_oc.mv && c.v_oc.mv <= 600_000 && !(500_000 <= i_bf.ma && i_bf.ma
        <= 106_000_000) {
        Err(
            RangeError::BoltedFaultCurrentOutOfRange {
                i_bf,
                min: Current { ma: 500_000 },
                max: Current { ma: 106_000_000 },
            },
        )
    } else if 600_000 < c.v_oc.mv && !(200_000 <= i_bf.ma && i_bf.ma <= 65_000_000) {
        Err(
            RangeError::BoltedFaultCurrentOutOfRange {
                i_bf,
                min: Current { ma: 200_000 },
                max: Current { ma: 65_000_000 },
            },
        )
    } else {
        Ok(())
    }
}

/// Assembles a high-voltage arcing-current result from the three
/// intermediate currents of the log-linear model: validates the
/// bolted-fault current, applies the variation reduction to each band when
/// asked, and interpolates the final current across the bands (clamping a
/// negative extrapolation, which no model-range input produces, at zero).
pub fn i_arc_hv_from_intermediates(
    c: &Cubicle,
    i_bf: Current,
    reduced: bool,
    i_600_full: Current,
    i_2700_full: Current,
    i_14300_full: Current,
) -> (r: Result<IArc, RangeError>)
    requires
        c.wf(),
        c.hv,
        reduced ==> 0 <= c.var_cf.num <= VAR_CF_DEN,
        i_600_full.ma <= INTERPOLATE_BOUND,
        i_2700_full.ma <= INTERPOLATE_BOUND,
        i_14300_full.ma <= INTERPOLATE_BOUND,
    ensures
        (r is Ok) == (spec_i_bf_error(*c, i_bf) is None),
        r matches Err(e) ==> Some(e) == spec_i_bf_error(*c, i_bf),
        r matches Ok(ia) ==> (ia matches IArc::HighVoltage(h) && {
            let i600 = if reduced {
                spec_i_arc_min(i_600_full.ma as int, c.var_cf.num as int)
            } else {
                i_600_full.ma as int
            };
            let i2700 = if reduced {
                spec_i_arc_min(i_2700_full.ma as int, c.var_cf.num as int)
            } else {
                i_2700_full.ma as int
            };
            let i14300 = if reduced {
                spec_i_arc_min(i_14300_full.ma as int, c.var_cf.num as int)
            } else {
                i_14300_full.ma as int
            };
            &&& h.i_bf == i_bf
            &&& h.reduced == reduced
            &&& h.i_arc_600.ma == i600
            &&& h.i_arc_2700.ma == i2700
            &&& h.i_arc_14300.ma == i14300
            &&& h.i_arc.ma == spec_interpolate_clamped(c.v_oc.mv as int, i600, i2700, i14300)
        }),
{
    match check_i_bf_range(c, i_bf) {
        Err(e) => {
            return Err(e);
        },
        Ok(()) => {},
    }
    let i_arc_600 = if reduced {
        i_arc_min(c, i_600_full)
    } else {
        i_600_full
    };
    let i_arc_2700 = if reduced {
        i_arc_min(c, i_2700_full)
    } else {
        i_2700_full
    };
    let i_arc_14300 = if reduced {
        i_arc_min(c, i_14300_full)
    } else {
        i_14300_full
    };
    let i_arc = interpolate_c(c, i_arc_600, i_arc_2700, i_arc_14300);
    Ok(
        IArc::HighVoltage(
            IArcHV { i_bf, reduced, i_arc_14300, i_arc_2700, i_arc_600, i_arc },
        ),
    )
}

/// Assembles a low-voltage arcing-current result: validates the
/// bolted-fault current and applies the variation reduction to the final
/// low-voltage current — not to the 0.6 kV intermediate, which the
/// incident-energy model always takes at full value.
pub fn i_arc_lv_from_parts(
    c: &Cubicle,
    i_bf: Current,
    reduced: bool,
    i_arc_600: Current,
    i_arc_full: Current,
) -> (r: Result<IArc, RangeError>)
    requires
        c.wf(),
        !c.hv,
        reduced ==> 0 <= c.var_cf.num <= VAR_CF_DEN,
    ensures
        (r is Ok) == (spec_i_bf_error(*c, i_bf) is None),
        r matches Err(e) ==> Some(e) == spec_i_bf_error(*c, i_bf),
        r matches Ok(ia) ==> (ia matches IArc::LowVoltage(l) && {
            &&& l.i_bf == i_bf
            &&& l.reduced == reduced
            &&& l.i_arc_600 == i_arc_600
            &&& l.i_arc.ma == (if reduced {
                spec_i_arc_min(i_arc_full.ma as int, c.var_cf.num as int)
            } else {
                i_arc_full.ma as int
            })
        }),
{
    match check_i_bf_range(c, i_bf) {
        Err(e) => {
            return Err(e);
        },
        Ok(()) => {},
    }
    let i_arc = if reduced {
        i_arc_min(c, i_arc_full)
    } else {
        i_arc_full
    };
    Ok(IArc::LowVoltage(IArcLV { i_bf, reduced, i_arc_600, i_arc }))
}

} // verus!
