use vstd::prelude::*;

verus! {

/// Electrode configuration of the equipment under study. Selected at input
/// time; drives every coefficient-table lookup.
#[derive(PartialEq, Eq, Structural, Hash, Copy, Clone, Debug)]
pub enum ElectrodeConfiguration {
    /// Vertical conductors in a box.
    VCB,
    /// Vertical conductors in a box, barrier present.
    VCBB,
    /// Horizontal conductors in a box.
    HCB,
    /// Horizontal conductors, open air.
    HOA,
    /// Vertical conductors, open air.
    VOA,
}

/// Enclosure class, derived from voltage and box dimensions at construction,
/// never an input.
#[derive(PartialEq, Eq, Structural, Hash, Copy, Clone, Debug)]
pub enum EnclosureType {
    Typical,
    Shallow,
}

/// The three reference voltages at which the high-voltage model is
/// tabulated; real voltages are interpolated between them.
#[derive(PartialEq, Eq, Structural, Hash, Copy, Clone, Debug)]
pub enum NominalVoltage {
    V600,
    V2700,
    V14300,
}

/// Whether the configuration places the electrodes inside a box; open-air
/// configurations take no enclosure-size correction.
pub open spec fn is_boxed(ec: ElectrodeConfiguration) -> bool {
    ec is VCB || ec is VCBB || ec is HCB
}

/// Executable twin of [`is_boxed`].
pub fn boxed(ec: ElectrodeConfiguration) -> (r: bool)
    ensures
        r == is_boxed(ec),
{
    match ec {
        ElectrodeConfiguration::VCB => true,
        ElectrodeConfiguration::VCBB => true,
        ElectrodeConfiguration::HCB => true,
        ElectrodeConfiguration::HOA => false,
        ElectrodeConfiguration::VOA => false,
    }
}

} // verus!
