use vstd::prelude::*;

use crate::common::is_boxed;
use crate::common::ElectrodeConfiguration;
use crate::common::EnclosureType;
use crate::errors::RangeError;
use crate::rational::lemma_abs_mul_le;
use crate::rational::lemma_mul_le;
use crate::rational::Ratio;
use crate::tables::spec_table_2;
use crate::tables::spec_table_7;
use crate::tables::table_2;
use crate::tables::table_7;
use crate::units::Distance;
use crate::units::Voltage;

verus! {

/// Denominator of the exactly-computed arcing-current variation factor:
/// the variation polynomial is evaluated on the voltage truncated to
/// decivolts, over this fixed power-of-ten denominator.
pub const VAR_CF_DEN: i128 = 100_000_000_000_000_000_000_000_000_000_000_000;

/// Rescaling constant `a` of the equivalent-dimension rule, by
/// configuration; only boxed configurations have one.
pub open spec fn ec_a(ec: ElectrodeConfiguration) -> int {
    match ec {
        ElectrodeConfiguration::VCB => 4,
        ElectrodeConfiguration::VCBB => 10,
        ElectrodeConfiguration::HCB => 10,
        _ => 0,
    }
}

/// Rescaling constant `b` of the equivalent-dimension rule, by
/// configuration.
pub open spec fn ec_b(ec: ElectrodeConfiguration) -> int {
    match ec {
        ElectrodeConfiguration::VCB => 20,
        ElectrodeConfiguration::VCBB => 24,
        ElectrodeConfiguration::HCB => 22,
        _ => 1,
    }
}

/// Common denominator of every equivalent dimension, in units of
/// `1 / (254 * b * 10^8)` inch: micrometres convert by the standard's
/// printed factor of 0.03937 inch per millimetre, and the rescaling rule
/// divides by 25.4.
pub open spec fn spec_eq_den(ec: ElectrodeConfiguration) -> int {
    25_400_000_000 * ec_b(ec)
}

/// Numerator of a direct millimetre-to-inch conversion of `dim` micrometres
/// over [`spec_eq_den`]: `0.03937 * dim / 1000` inches, with
/// `999_998 == 3937 * 254`.
pub open spec fn spec_direct_num(ec: ElectrodeConfiguration, dim: int) -> int {
    (999_998 * ec_b(ec)) * dim
}

/// Numerator of the configuration-specific linear rescaling anchored at
/// 660.4 mm, over [`spec_eq_den`]:
/// `(660.4 + (dim_mm - 660.4) * (v_kv + a) / b) / 25.4` inches.
pub open spec fn spec_resc_num(ec: ElectrodeConfiguration, mv: int, dim: int) -> int {
    660_400_000_000 * ec_b(ec) + (dim - 660_400) * (mv + 1_000_000 * ec_a(ec))
}

/// Equivalent width numerator over [`spec_eq_den`]: below 508 mm a typical
/// enclosure takes a fixed 20 inches and a shallow one converts directly;
/// from 508 mm to 660.4 mm the width converts directly; above that the
/// rescaling applies, clamped at 1244.6 mm.
pub open spec fn spec_eq_width_num(
    ec: ElectrodeConfiguration,
    et: EnclosureType,
    mv: int,
    w: int,
) -> int {
    if w < 508_000 {
        if et is Typical {
            20 * spec_eq_den(ec)
        } else {
            spec_direct_num(ec, w)
        }
    } else if w <= 660_400 {
        spec_direct_num(ec, w)
    } else if w <= 1_244_600 {
        spec_resc_num(ec, mv, w)
    } else {
        spec_resc_num(ec, mv, 1_244_600)
    }
}

/// Equivalent height numerator over [`spec_eq_den`]. The height rule
/// additionally special-cases VCB above 660.4 mm — direct conversion up to
/// 1244.6 mm and a fixed 49 inches beyond — where the other boxed
/// configurations keep the rescaling. This asymmetry is the standard's own
/// and is load-bearing.
pub open spec fn spec_eq_height_num(
    ec: ElectrodeConfiguration,
    et: EnclosureType,
    mv: int,
    h: int,
) -> int {
    if h < 508_000 {
        if et is Typical {
            20 * spec_eq_den(ec)
        } else {
            spec_direct_num(ec, h)
        }
    } else if h <= 660_400 {
        spec_direct_num(ec, h)
    } else if h <= 1_244_600 {
        if ec is VCB {
            spec_direct_num(ec, h)
        } else {
            spec_resc_num(ec, mv, h)
        }
    } else {
        if ec is VCB {
            49 * spec_eq_den(ec)
        } else {
            spec_resc_num(ec, mv, 1_244_600)
        }
    }
}

/// Equivalent enclosure size numerator: the mean of the two equivalent
/// dimensions, over twice [`spec_eq_den`].
pub open spec fn spec_ees_num(
    ec: ElectrodeConfiguration,
    et: EnclosureType,
    mv: int,
    h: int,
    w: int,
) -> int {
    spec_eq_width_num(ec, et, mv, w) + spec_eq_height_num(ec, et, mv, h)
}

/// Numerator of the correction quadratic `b1 * ees^2 + b2 * ees + b3` over
/// [`spec_quad_den`].
pub open spec fn spec_quad_num(
    ec: ElectrodeConfiguration,
    et: EnclosureType,
    mv: int,
    h: int,
    w: int,
) -> int {
    let t = spec_table_7(et, ec);
    let e = spec_ees_num(ec, et, mv, h, w);
    let d2 = 2 * spec_eq_den(ec);
    t.b1 * (e * e) + (t.b2 * e) * d2 + (t.b3 * d2) * d2
}

/// Denominator of the correction quadratic.
pub open spec fn spec_quad_den(ec: ElectrodeConfiguration) -> int {
    10_000_000 * ((2 * spec_eq_den(ec)) * (2 * spec_eq_den(ec)))
}

/// Numerator of the enclosure-size correction factor: open-air
/// configurations take exactly one; typical enclosures take the quadratic;
/// shallow enclosures take its reciprocal.
pub open spec fn spec_cf_num(
    ec: ElectrodeConfiguration,
    et: EnclosureType,
    mv: int,
    h: int,
    w: int,
) -> int {
    if !is_boxed(ec) {
        1
    } else if et is Typical {
        spec_quad_num(ec, et, mv, h, w)
    } else {
        spec_quad_den(ec)
    }
}

/// Denominator of the enclosure-size correction factor.
pub open spec fn spec_cf_den(
    ec: ElectrodeConfiguration,
    et: EnclosureType,
    mv: int,
    h: int,
    w: int,
) -> int {
    if !is_boxed(ec) {
        1
    } else if et is Typical {
        spec_quad_den(ec)
    } else {
        spec_quad_num(ec, et, mv, h, w)
    }
}

/// The correction factor is valid exactly when it is a well-formed
/// rational lying in `[0, 3]`; a shallow reciprocal with a nonpositive
/// quadratic is invalid by the first conjunct.
pub open spec fn spec_cf_ok(
    ec: ElectrodeConfiguration,
    et: EnclosureType,
    mv: int,
    h: int,
    w: int,
) -> bool {
    let n = spec_cf_num(ec, et, mv, h, w);
    let d = spec_cf_den(ec, et, mv, h, w);
    d > 0 && 0 <= n && n <= 3 * d
}

/// A shallow enclosure: below 0.6 kV with height and width below 508 mm
/// and depth at most 203.2 mm. Everything else is typical.
pub open spec fn spec_is_shallow(mv: int, h: int, w: int, dp: int) -> bool {
    mv < 600_000 && h < 508_000 && w < 508_000 && dp <= 203_200
}

/// Enclosure classification from the raw inputs.
pub open spec fn spec_enclosure_type(mv: int, h: int, w: int, dp: int) -> EnclosureType {
    if spec_is_shallow(mv, h, w, dp) {
        EnclosureType::Shallow
    } else {
        EnclosureType::Typical
    }
}

/// Numerator, over [`VAR_CF_DEN`], of the degree-six arcing-current
/// variation polynomial evaluated at `dv` decivolts (the nominal voltage
/// truncated to 0.1 V).
pub open spec fn spec_var_cf_num(ec: ElectrodeConfiguration, dv: int) -> int {
    let k = spec_table_2(ec);
    let d2 = dv * dv;
    let d3 = d2 * dv;
    let d4 = d3 * dv;
    let d5 = d4 * dv;
    let d6 = d5 * dv;
    k.k1 * d6 + (k.k2 * d5) * 10_000 + (k.k3 * d4) * 100_000_000 + (k.k4 * d3)
        * 1_000_000_000_000 + (k.k5 * d2) * 10_000_000_000_000_000 + (k.k6 * dv)
        * 100_000_000_000_000_000_000 + k.k7 * 1_000_000_000_000_000_000_000_000
}

/// The first model-range violation among gap, working distance and
/// enclosure width, in the order the model states them, or `None` when all
/// hold. Gaps must lie in `[6.35, 76.2]` mm up to 0.6 kV and in
/// `[19.05, 254]` mm above; the working distance must be at least 305 mm;
/// the enclosure width must be at least four busbar gaps.
pub open spec fn spec_model_bounds_error(
    v_oc: Voltage,
    g: Distance,
    d: Distance,
    width: Distance,
) -> Option<RangeError> {
    if v_oc.mv <= 600_000 && g.um < 6_350 {
        Some(RangeError::GapTooSmall { gap: g, min: Distance { um: 6_350 } })
    } else if v_oc.mv <= 600_000 && g.um > 76_200 {
        Some(RangeError::GapTooLarge { gap: g, max: Distance { um: 76_200 } })
    } else if v_oc.mv > 600_000 && g.um < 19_050 {
        Some(RangeError::GapTooSmall { gap: g, min: Distance { um: 19_050 } })
    } else if v_oc.mv > 600_000 && g.um > 254_000 {
        Some(RangeError::GapTooLarge { gap: g, max: Distance { um: 254_000 } })
    } else if d.um < 305_000 {
        Some(RangeError::WorkingDistanceTooSmall { d, min: Distance { um: 305_000 } })
    } else if width.um < 4 * g.um {
        Some(
            RangeError::EnclosureWidthTooSmall {
                width,
                min: Distance { um: (4 * g.um) as u64 },
            },
        )
    } else {
        None
    }
}

/// The box dimensions of a piece of equipment.
#[derive(PartialEq, Eq, Structural, Copy, Clone, Debug)]
pub struct BoxDimensions {
    pub height: Distance,
    pub width: Distance,
    pub depth: Distance,
}

/// The exact equivalent dimensions and equivalent enclosure size behind a
/// boxed profile's correction factor, kept for inspection.
#[derive(PartialEq, Eq, Structural, Copy, Clone, Debug)]
pub struct EnclosureDetail {
    /// Equivalent width in inches.
    pub width: Ratio,
    /// Equivalent height in inches.
    pub height: Ratio,
    /// Equivalent enclosure size in inches: the mean of the two.
    pub ees: Ratio,
}

/// Validated, immutable description of one piece of equipment, with its
/// derived correction factors computed exactly at construction and never
/// mutated.
#[derive(PartialEq, Eq, Structural, Copy, Clone, Debug)]
pub struct Cubicle {
    /// Nominal open-circuit voltage.
    pub v_oc: Voltage,
    pub ec: ElectrodeConfiguration,
    /// Busbar gap.
    pub g: Distance,
    /// Working distance.
    pub d: Distance,
    pub dim: BoxDimensions,
    pub enclosure_type: EnclosureType,
    /// Arcing-current variation correction factor, exact over
    /// [`VAR_CF_DEN`].
    pub var_cf: Ratio,
    /// Enclosure-size correction factor, exact; always in `[0, 3]`.
    pub cf: Ratio,
    /// Equivalent-dimension detail for boxed configurations.
    pub detail: Option<EnclosureDetail>,
    /// High-voltage classification: true exactly above 0.6 kV (and the
    /// model stops at 15 kV).
    pub hv: bool,
}

impl Cubicle {
    /// Every constructed profile satisfies this: the derived fields agree
    /// exactly with their defining formulas, the correction factor lies in
    /// `[0, 3]`, and the model-range checks hold.
    pub open spec fn wf(self) -> bool {
        &&& self.v_oc.mv <= 15_000_000
        &&& self.hv == (self.v_oc.mv > 600_000)
        &&& self.enclosure_type == spec_enclosure_type(
            self.v_oc.mv as int,
            self.dim.height.um as int,
            self.dim.width.um as int,
            self.dim.depth.um as int,
        )
        &&& self.var_cf.num == spec_var_cf_num(self.ec, self.v_oc.mv as int / 100)
        &&& self.var_cf.den == VAR_CF_DEN
        &&& self.cf.num == spec_cf_num(
            self.ec,
            self.enclosure_type,
            self.v_oc.mv as int,
            self.dim.height.um as int,
            self.dim.width.um as int,
        )
        &&& self.cf.den == spec_cf_den(
            self.ec,
            self.enclosure_type,
            self.v_oc.mv as int,
            self.dim.height.um as int,
            self.dim.width.um as int,
        )
        &&& self.cf.wf()
        &&& 0 <= self.cf.num <= 3 * self.cf.den
        &&& spec_model_bounds_error(self.v_oc, self.g, self.d, self.dim.width) is None
        &&& (self.detail is Some <==> is_boxed(self.ec))
    }

    /// Validated construction. Fails with the first model-range violation,
    /// or with an out-of-range correction factor; succeeds exactly when
    /// none occurs, and then every derived field is pinned to its formula.
    /// Voltages above 15 kV are outside the model entirely.
    pub fn new(
        v_oc: Voltage,
        ec: ElectrodeConfiguration,
        g: Distance,
        d: Distance,
        height: Distance,
        width: Distance,
        depth: Distance,
    ) -> (r: Result<Cubicle, RangeError>)
        requires
            v_oc.mv <= 15_000_000,
        ensures
            ({
                let et = spec_enclosure_type(
                    v_oc.mv as int,
                    height.um as int,
                    width.um as int,
                    depth.um as int,
                );
                let berr = spec_model_bounds_error(v_oc, g, d, width);
                let cf_ok = spec_cf_ok(ec, et, v_oc.mv as int, height.um as int, width.um as int);
                &&& (r is Ok <==> (berr is None && cf_ok))
                &&& (r matches Ok(c) ==> {
                    &&& c.wf()
                    &&& c.v_oc == v_oc
                    &&& c.ec == ec
                    &&& c.g == g
                    &&& c.d == d
                    &&& c.dim == (BoxDimensions { height, width, depth })
                    &&& c.enclosure_type == et
                })
                &&& (r matches Err(e) ==> (if berr is Some {
                    Some(e) == berr
                } else {
                    e == (RangeError::CorrectionFactorOutOfRange {
                        cf: Ratio {
                            num: spec_cf_num(
                                ec,
                                et,
                                v_oc.mv as int,
                                height.um as int,
                                width.um as int,
                            ) as i128,
                            den: spec_cf_den(
                                ec,
                                et,
                                v_oc.mv as int,
                                height.um as int,
                                width.um as int,
                            ) as i128,
                        },
                    })
                }))
            }),
    {
        let dv: u64 = v_oc.mv / 100;
        proof {
            assert(dv <= 150_000) by (nonlinear_arith)
                requires
                    v_oc.mv <= 15_000_000,
                    dv == v_oc.mv as int / 100;
        }
        let var_num: i128 = var_cf_poly(ec, dv);

        let enclosure_type = if v_oc.mv < 600_000 && height.um < 508_000 && width.um < 508_000
            && depth.um <= 203_200 {
            EnclosureType::Shallow
        } else {
            EnclosureType::Typical
        };

        let (cf, detail) = calc_cf(ec, enclosure_type, v_oc, height, width);

        match check_model_bounds(v_oc, g, d, width) {
            Err(e) => {
                return Err(e);
            },
            Ok(()) => {},
        }

        if cf.den <= 0 || cf.num < 0 || cf.num > 3 * cf.den {
            return Err(RangeError::CorrectionFactorOutOfRange { cf });
        }

        let hv = v_oc.mv > 600_000;

        Ok(
            Cubicle {
                v_oc,
                ec,
                g,
                d,
                dim: BoxDimensions { height, width, depth },
                enclosure_type,
                var_cf: Ratio { num: var_num, den: VAR_CF_DEN },
                cf,
                detail,
                hv,
            },
        )
    }
}

/// The rescaling constants of the equivalent-dimension rule.
fn config_ab(ec: ElectrodeConfiguration) -> (r: (i128, i128))
    ensures
        r.0 == ec_a(ec),
        r.1 == ec_b(ec),
{
    match ec {
        ElectrodeConfiguration::VCB => (4, 20),
        ElectrodeConfiguration::VCBB => (10, 24),
        ElectrodeConfiguration::HCB => (10, 22),
        ElectrodeConfiguration::HOA => (0, 1),
        ElectrodeConfiguration::VOA => (0, 1),
    }
}

/// Direct conversion of a clamped dimension to the common inch
/// denominator.
fn direct_num(ec: ElectrodeConfiguration, b: i128, dim: u64) -> (n: i128)
    requires
        b == ec_b(ec),
        1 <= b <= 24,
        dim <= 1_244_600,
    ensures
        n == spec_direct_num(ec, dim as int),
        0 <= n <= 31_000_000_000_000,
{
    let c: i128 = 999_998 * b;
    proof {
        lemma_mul_le(c as int, dim as int, 24_000_000, 1_244_600);
    }
    c * (dim as i128)
}

/// The linear rescaling anchored at 660.4 mm, on the common inch
/// denominator.
fn resc_num(ec: ElectrodeConfiguration, a: i128, b: i128, mv: u64, dim: u64) -> (n: i128)
    requires
        a == ec_a(ec),
        b == ec_b(ec),
        0 <= a <= 10,
        1 <= b <= 24,
        mv <= 15_000_000,
        660_400 <= dim <= 1_244_600,
    ensures
        n == spec_resc_num(ec, mv as int, dim as int),
        0 < n <= 31_000_000_000_000,
{
    let y1: i128 = dim as i128 - 660_400;
    let y2: i128 = mv as i128 + 1_000_000 * a;
    proof {
        lemma_mul_le(y1 as int, y2 as int, 584_200, 25_000_000);
    }
    660_400_000_000 * b + y1 * y2
}

/// Equivalent width on the common inch denominator.
fn eq_width_num(ec: ElectrodeConfiguration, et: EnclosureType, v_oc: Voltage, w: Distance) -> (n:
    i128)
    requires
        is_boxed(ec),
        v_oc.mv <= 15_000_000,
    ensures
        n == spec_eq_width_num(ec, et, v_oc.mv as int, w.um as int),
        0 <= n <= 31_000_000_000_000,
{
    let ab = config_ab(ec);
    if w.um < 508_000 {
        match et {
            EnclosureType::Typical => 20 * (25_400_000_000 * ab.1),
            EnclosureType::Shallow => direct_num(ec, ab.1, w.um),
        }
    } else if w.um <= 660_400 {
        direct_num(ec, ab.1, w.um)
    } else if w.um <= 1_244_600 {
        resc_num(ec, ab.0, ab.1, v_oc.mv, w.um)
    } else {
        resc_num(ec, ab.0, ab.1, v_oc.mv, 1_244_600)
    }
}

/// Equivalent height on the common inch denominator, with the VCB special
/// cases.
fn eq_height_num(ec: ElectrodeConfiguration, et: EnclosureType, v_oc: Voltage, h: Distance) -> (n:
    i128)
    requires
        is_boxed(ec),
        v_oc.mv <= 15_000_000,
    ensures
        n == spec_eq_height_num(ec, et, v_oc.mv as int, h.um as int),
        0 <= n <= 31_000_000_000_000,
{
    let ab = config_ab(ec);
    if h.um < 508_000 {
        match et {
            EnclosureType::Typical => 20 * (25_400_000_000 * ab.1),
            EnclosureType::Shallow => direct_num(ec, ab.1, h.um),
        }
    } else if h.um <= 660_400 {
        direct_num(ec, ab.1, h.um)
    } else if h.um <= 1_244_600 {
        match ec {
            ElectrodeConfiguration::VCB => direct_num(ec, ab.1, h.um),
            _ => resc_num(ec, ab.0, ab.1, v_oc.mv, h.um),
        }
    } else {
        match ec {
            ElectrodeConfiguration::VCB => 49 * (25_400_000_000 * ab.1),
            _ => resc_num(ec, ab.0, ab.1, v_oc.mv, 1_244_600),
        }
    }
}

/// The enclosure-size correction factor as an exact rational, with the
/// equivalent-dimension detail for boxed configurations. For a shallow
/// enclosure the rational is the reciprocal of the quadratic and its
/// denominator may be nonpositive; construction rejects that case.
fn calc_cf(
    ec: ElectrodeConfiguration,
    et: EnclosureType,
    v_oc: Voltage,
    height: Distance,
    width: Distance,
) -> (r: (Ratio, Option<EnclosureDetail>))
    requires
        v_oc.mv <= 15_000_000,
    ensures
        r.0.num == spec_cf_num(ec, et, v_oc.mv as int, height.um as int, width.um as int),
        r.0.den == spec_cf_den(ec, et, v_oc.mv as int, height.um as int, width.um as int),
        -400_000_000_000_000_000_000_000_000_000_000 <= r.0.num
            <= 400_000_000_000_000_000_000_000_000_000_000,
        -400_000_000_000_000_000_000_000_000_000_000 <= r.0.den
            <= 400_000_000_000_000_000_000_000_000_000_000,
        (r.1 is Some) == is_boxed(ec),
        r.1 matches Some(dt) ==> {
            &&& dt.width.num == spec_eq_width_num(ec, et, v_oc.mv as int, width.um as int)
            &&& dt.width.den == spec_eq_den(ec)
            &&& dt.height.num == spec_eq_height_num(ec, et, v_oc.mv as int, height.um as int)
            &&& dt.height.den == spec_eq_den(ec)
            &&& dt.ees.num == spec_ees_num(
                ec,
                et,
                v_oc.mv as int,
                height.um as int,
                width.um as int,
            )
            &&& dt.ees.den == 2 * spec_eq_den(ec)
            &&& dt.width.wf() && dt.height.wf() && dt.ees.wf()
        },
{
    if !crate::common::boxed(ec) {
        return (Ratio::one(), None);
    }

    let ab = config_ab(ec);
    let wn: i128 = eq_width_num(ec, et, v_oc, width);
    let hn: i128 = eq_height_num(ec, et, v_oc, height);
    let e: i128 = wn + hn;
    let den1: i128 = 25_400_000_000 * ab.1;
    let d2: i128 = 2 * den1;

    let t = table_7(et, ec);
    proof {
        assert(-30_000 <= t.b1 <= 30_000 && -300_000 <= t.b2 <= 1_200_000 && -3_000_000 <= t.b3
            <= 7_000_000);
        lemma_mul_le(e as int, e as int, 62_000_000_000_000, 62_000_000_000_000);
    }
    let e2: i128 = e * e;
    proof {
        lemma_abs_mul_le(t.b1 as int, e2 as int, 30_000, 3_844_000_000_000_000_000_000_000_000);
        lemma_abs_mul_le(t.b2 as int, e as int, 1_200_000, 62_000_000_000_000);
    }
    let t1: i128 = (t.b1 as i128) * e2;
    let t2a: i128 = (t.b2 as i128) * e;
    proof {
        lemma_abs_mul_le(
            t2a as int,
            d2 as int,
            74_400_000_000_000_000_000,
            1_219_200_000_000,
        );
        lemma_abs_mul_le(t.b3 as int, d2 as int, 7_000_000, 1_219_200_000_000);
    }
    let t2: i128 = t2a * d2;
    let t3a: i128 = (t.b3 as i128) * d2;
    proof {
        lemma_abs_mul_le(t3a as int, d2 as int, 8_534_400_000_000_000_000, 1_219_200_000_000);
    }
    let t3: i128 = t3a * d2;
    let qn: i128 = t1 + t2 + t3;
    proof {
        lemma_mul_le(d2 as int, d2 as int, 1_219_200_000_000, 1_219_200_000_000);
        assert(d2 * d2 > 0) by (nonlinear_arith)
            requires
                d2 >= 1;
    }
    let dd2: i128 = d2 * d2;
    let qd: i128 = 10_000_000 * dd2;

    let cf = if matches!(et, EnclosureType::Typical) {
        Ratio { num: qn, den: qd }
    } else {
        Ratio { num: qd, den: qn }
    };
    let detail = EnclosureDetail {
        width: Ratio { num: wn, den: den1 },
        height: Ratio { num: hn, den: den1 },
        ees: Ratio { num: e, den: d2 },
    };
    (cf, Some(detail))
}

/// Model-range validation: gap by voltage class, working distance, and
/// enclosure width against four busbar gaps, in the model's order.
fn check_model_bounds(v_oc: Voltage, g: Distance, d: Distance, width: Distance) -> (r: Result<
    (),
    RangeError,
>)
    ensures
        (r is Ok) == (spec_model_bounds_error(v_oc, g, d, width) is None),
        r matches Err(e) ==> Some(e) == spec_model_bounds_error(v_oc, g, d, width),
{
    if v_oc.mv <= 600_000 {
        if g.um < 6_350 {
            return Err(
                RangeError::GapTooSmall { gap: g, min: Distance { um: 6_350 } },
            );
        }
        if g.um > 76_200 {
            return Err(
                RangeError::GapTooLarge { gap: g, max: Distance { um: 76_200 } },
            );
        }
    } else {
        if g.um < 19_050 {
            return Err(
                RangeError::GapTooSmall { gap: g, min: Distance { um: 19_050 } },
            );
        }
        if g.um > 254_000 {
            return Err(
                RangeError::GapTooLarge { gap: g, max: Distance { um: 254_000 } },
            );
        }
    }
    if d.um < 305_000 {
        return Err(
            RangeError::WorkingDistanceTooSmall { d, min: Distance { um: 305_000 } },
        );
    }
    if width.um < 4 * g.um {
        return Err(
            RangeError::EnclosureWidthTooSmall { width, min: Distance { um: 4 * g.um } },
        );
    }
    Ok(())
}

/// The arcing-current variation polynomial, exactly, over [`VAR_CF_DEN`].
fn var_cf_poly(ec: ElectrodeConfiguration, dv: u64) -> (n: i128)
    requires
        dv <= 150_000,
    ensures
        n == spec_var_cf_num(ec, dv as int),
{
    let k = table_2(ec);
    proof {
        assert(-120_000 <= k.k1 <= 120_000 && -6_100_000 <= k.k2 <= 6_100_000 && -130_000_000 <= k.k3
            <= 130_000_000 && -1_400_000_000 <= k.k4 <= 1_400_000_000 && -8_100_000_000 <= k.k5
            <= 8_100_000_000 && -25_000_000_000 <= k.k6 <= 25_000_000_000 && -35_000_000_000 <= k.k7
            <= 35_000_000_000);
    }
    let x: i128 = dv as i128;
    proof {
        lemma_mul_le(x as int, x as int, 150_000, 150_000);
    }
    let x2: i128 = x * x;
    proof {
        lemma_mul_le(x2 as int, x as int, 22_500_000_000, 150_000);
    }
    let x3: i128 = x2 * x;
    proof {
        lemma_mul_le(x3 as int, x as int, 3_375_000_000_000_000, 150_000);
    }
    let x4: i128 = x3 * x;
    proof {
        lemma_mul_le(x4 as int, x as int, 506_250_000_000_000_000_000, 150_000);
    }
    let x5: i128 = x4 * x;
    proof {
        lemma_mul_le(x5 as int, x as int, 75_937_500_000_000_000_000_000_000, 150_000);
    }
    let x6: i128 = x5 * x;
    proof {
        lemma_abs_mul_le(
            k.k1 as int,
            x6 as int,
            120_000,
            11_390_625_000_000_000_000_000_000_000_000,
        );
        lemma_abs_mul_le(k.k2 as int, x5 as int, 6_100_000, 75_937_500_000_000_000_000_000_000);
        lemma_abs_mul_le(k.k3 as int, x4 as int, 130_000_000, 506_250_000_000_000_000_000);
        lemma_abs_mul_le(k.k4 as int, x3 as int, 1_400_000_000, 3_375_000_000_000_000);
        lemma_abs_mul_le(k.k5 as int, x2 as int, 8_100_000_000, 22_500_000_000);
        lemma_abs_mul_le(k.k6 as int, x as int, 25_000_000_000, 150_000);
    }
    let t1: i128 = (k.k1 as i128) * x6;
    let t2: i128 = ((k.k2 as i128) * x5) * 10_000;
    let t3: i128 = ((k.k3 as i128) * x4) * 100_000_000;
    let t4: i128 = ((k.k4 as i128) * x3) * 1_000_000_000_000;
    let t5: i128 = ((k.k5 as i128) * x2) * 10_000_000_000_000_000;
    let t6: i128 = ((k.k6 as i128) * x) * 100_000_000_000_000_000_000;
    let t7: i128 = (k.k7 as i128) * 1_000_000_000_000_000_000_000_000;
    t1 + t2 + t3 + t4 + t5 + t6 + t7
}

} // verus!
