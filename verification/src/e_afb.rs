use vstd::prelude::*;

use crate::cubicle::Cubicle;
use crate::interp::interpolate_e;
use crate::interp::interpolate_l;
use crate::interp::spec_interpolate_clamped;
use crate::interp::INTERPOLATE_BOUND;
use crate::units::ArcDuration;
use crate::units::Distance;
use crate::units::Energy;

verus! {

/// High-voltage incident-energy and boundary result: per reference band an
/// intermediate energy and an intermediate arc-flash boundary, plus the
/// voltage-interpolated final energy and boundary.
#[derive(PartialEq, Eq, Structural, Copy, Clone, Debug)]
pub struct EAfbHV {
    pub t_arc: ArcDuration,
    pub afb_14300: Distance,
    pub afb_2700: Distance,
    pub afb_600: Distance,
    pub afb: Distance,
    pub e_14300: Energy,
    pub e_2700: Energy,
    pub e_600: Energy,
    pub e: Energy,
}

/// Low-voltage incident-energy and boundary result: the final energy and
/// boundary only — the low-voltage path has no interpolation step.
#[derive(PartialEq, Eq, Structural, Copy, Clone, Debug)]
pub struct EAfbLV {
    pub t_arc: ArcDuration,
    pub afb: Distance,
    pub e: Energy,
}

/// Incident-energy and arc-flash-boundary result, tagged by the profile's
/// voltage class; it must match the arcing-current result it was derived
/// from.
#[derive(PartialEq, Eq, Structural, Copy, Clone, Debug)]
pub enum EAfb {
    HighVoltage(EAfbHV),
    LowVoltage(EAfbLV),
}

impl EAfb {
    pub open spec fn spec_t_arc(self) -> ArcDuration {
        match self {
            EAfb::HighVoltage(x) => x.t_arc,
            EAfb::LowVoltage(x) => x.t_arc,
        }
    }

    pub open spec fn spec_afb(self) -> Distance {
        match self {
            EAfb::HighVoltage(x) => x.afb,
            EAfb::LowVoltage(x) => x.afb,
        }
    }

    pub open spec fn spec_e(self) -> Energy {
        match self {
            EAfb::HighVoltage(x) => x.e,
            EAfb::LowVoltage(x) => x.e,
        }
    }

    /// The high-voltage payload; asking a low-voltage result for it is a
    /// caller defect, excluded here rather than detected at run time.
    pub fn hv(&self) -> (r: &EAfbHV)
        requires
            self is HighVoltage,
        ensures
            *self == EAfb::HighVoltage(*r),
    {
        match self {
            EAfb::HighVoltage(x) => x,
            EAfb::LowVoltage(_) => unreached(),
        }
    }

    /// The low-voltage payload; asking a high-voltage result for it is a
    /// caller defect, excluded here rather than detected at run time.
    pub fn lv(&self) -> (r: &EAfbLV)
        requires
            self is LowVoltage,
        ensures
            *self == EAfb::LowVoltage(*r),
    {
        match self {
            EAfb::LowVoltage(x) => x,
            EAfb::HighVoltage(_) => unreached(),
        }
    }

    pub fn t_arc(&self) -> (r: ArcDuration)
        ensures
            r == self.spec_t_arc(),
    {
        match self {
            EAfb::HighVoltage(x) => x.t_arc,
            EAfb::LowVoltage(x) => x.t_arc,
        }
    }

    pub fn afb(&self) -> (r: Distance)
        ensures
            r == self.spec_afb(),
    {
        match self {
            EAfb::HighVoltage(x) => x.afb,
            EAfb::LowVoltage(x) => x.afb,
        }
    }

    pub fn e(&self) -> (r: Energy)
        ensures
            r == self.spec_e(),
    {
        match self {
            EAfb::HighVoltage(x) => x.e,
            EAfb::LowVoltage(x) => x.e,
        }
    }
}

/// Assembles a high-voltage energy-and-boundary result from the per-band
/// intermediate energies and boundaries: the final energy and the final
/// boundary are each the band interpolation of their three intermediates,
/// and every intermediate is stored unchanged.
pub fn e_afb_hv_from_bands(
    c: &Cubicle,
    t_arc: ArcDuration,
    e_600: Energy,
    e_2700: Energy,
    e_14300: Energy,
    afb_600: Distance,
    afb_2700: Distance,
    afb_14300: Distance,
) -> (r: EAfb)
    requires
        c.wf(),
        c.hv,
        e_600.njcm2 <= INTERPOLATE_BOUND,
        e_2700.njcm2 <= INTERPOLATE_BOUND,
        e_14300.njcm2 <= INTERPOLATE_BOUND,
        afb_600.um <= INTERPOLATE_BOUND,
        afb_2700.um <= INTERPOLATE_BOUND,
        afb_14300.um <= INTERPOLATE_BOUND,
    ensures
        r matches EAfb::HighVoltage(h) && {
            &&& h.t_arc == t_arc
            &&& h.e_600 == e_600
            &&& h.e_2700 == e_2700
            &&& h.e_14300 == e_14300
            &&& h.afb_600 == afb_600
            &&& h.afb_2700 == afb_2700
            &&& h.afb_14300 == afb_14300
            &&& h.e.njcm2 == spec_interpolate_clamped(
                c.v_oc.mv as int,
                e_600.njcm2 as int,
                e_2700.njcm2 as int,
                e_14300.njcm2 as int,
            )
            &&& h.afb.um == spec_interpolate_clamped(
                c.v_oc.mv as int,
                afb_600.um as int,
                afb_2700.um as int,
                afb_14300.um as int,
            )
        },
{
    let e = interpolate_e(c, e_600, e_2700, e_14300);
    let afb = interpolate_l(c, afb_600, afb_2700, afb_14300);
    EAfb::HighVoltage(
        EAfbHV { t_arc, afb_14300, afb_2700, afb_600, afb, e_14300, e_2700, e_600, e },
    )
}

} // verus!
