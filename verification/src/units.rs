use vstd::prelude::*;

verus! {

/// Electric potential, held exactly in millivolts.
///
/// Every constructor converts exactly, so the same physical voltage written
/// in different units yields the same value.
#[derive(PartialEq, Eq, Structural, Copy, Clone, Debug)]
pub struct Voltage {
    pub mv: u64,
}

impl Voltage {
    pub fn from_millivolts(mv: u64) -> (r: Self)
        ensures
            r.mv == mv,
    {
        Voltage { mv }
    }

    pub fn from_volts(v: u64) -> (r: Self)
        requires
            1000 * v <= u64::MAX,
        ensures
            r.mv == 1000 * v,
    {
        Voltage { mv: 1000 * v }
    }

    pub fn from_kilovolts(kv: u64) -> (r: Self)
        requires
            1000000 * kv <= u64::MAX,
        ensures
            r.mv == 1000000 * kv,
    {
        Voltage { mv: 1000000 * kv }
    }
}

/// A length, held exactly in micrometres.
#[derive(PartialEq, Eq, Structural, Copy, Clone, Debug)]
pub struct Distance {
    pub um: u64,
}

impl Distance {
    pub fn from_micrometres(um: u64) -> (r: Self)
        ensures
            r.um == um,
    {
        Distance { um }
    }

    pub fn from_millimetres(mm: u64) -> (r: Self)
        requires
            1000 * mm <= u64::MAX,
        ensures
            r.um == 1000 * mm,
    {
        Distance { um: 1000 * mm }
    }

    pub fn from_metres(m: u64) -> (r: Self)
        requires
            1000000 * m <= u64::MAX,
        ensures
            r.um == 1000000 * m,
    {
        Distance { um: 1000000 * m }
    }
}

/// An electric current, held exactly in milliamperes.
#[derive(PartialEq, Eq, Structural, Copy, Clone, Debug)]
pub struct Current {
    pub ma: u64,
}

impl Current {
    pub fn from_milliamperes(ma: u64) -> (r: Self)
        ensures
            r.ma == ma,
    {
        Current { ma }
    }

    pub fn from_amperes(a: u64) -> (r: Self)
        requires
            1000 * a <= u64::MAX,
        ensures
            r.ma == 1000 * a,
    {
        Current { ma: 1000 * a }
    }

    pub fn from_kiloamperes(ka: u64) -> (r: Self)
        requires
            1000000 * ka <= u64::MAX,
        ensures
            r.ma == 1000000 * ka,
    {
        Current { ma: 1000000 * ka }
    }
}

/// An arc duration, held exactly in microseconds.
#[derive(PartialEq, Eq, Structural, Copy, Clone, Debug)]
pub struct ArcDuration {
    pub us: u64,
}

impl ArcDuration {
    pub fn from_microseconds(us: u64) -> (r: Self)
        ensures
            r.us == us,
    {
        ArcDuration { us }
    }

    pub fn from_milliseconds(ms: u64) -> (r: Self)
        requires
            1000 * ms <= u64::MAX,
        ensures
            r.us == 1000 * ms,
    {
        ArcDuration { us: 1000 * ms }
    }

    pub fn from_seconds(s: u64) -> (r: Self)
        requires
            1000000 * s <= u64::MAX,
        ensures
            r.us == 1000000 * s,
    {
        ArcDuration { us: 1000000 * s }
    }
}

/// Incident energy per unit area, held exactly in nanojoules per square
/// centimetre.
#[derive(PartialEq, Eq, Structural, Copy, Clone, Debug)]
pub struct Energy {
    pub njcm2: u64,
}

impl Energy {
    pub fn from_nanojoules_per_sq_cm(njcm2: u64) -> (r: Self)
        ensures
            r.njcm2 == njcm2,
    {
        Energy { njcm2 }
    }

    pub fn from_microjoules_per_sq_cm(ujcm2: u64) -> (r: Self)
        requires
            1000 * ujcm2 <= u64::MAX,
        ensures
            r.njcm2 == 1000 * ujcm2,
    {
        Energy { njcm2: 1000 * ujcm2 }
    }
}

} // verus!
