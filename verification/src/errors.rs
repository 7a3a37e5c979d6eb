use vstd::prelude::*;

use crate::rational::Ratio;
use crate::units::Current;
use crate::units::Distance;

verus! {

/// An input, or a quantity derived from inputs, fell outside the validated
/// range of the model. Each variant carries the offending value and the
/// violated bound; the caller must supply corrected input, nothing is
/// retried internally.
#[derive(PartialEq, Eq, Structural, Copy, Clone, Debug)]
pub enum RangeError {
    /// The busbar gap lies below the smallest gap the model covers for the
    /// profile's voltage class.
    GapTooSmall { gap: Distance, min: Distance },
    /// The busbar gap lies above the largest gap the model covers for the
    /// profile's voltage class.
    GapTooLarge { gap: Distance, max: Distance },
    /// The working distance lies below the smallest distance the model
    /// covers.
    WorkingDistanceTooSmall { d: Distance, min: Distance },
    /// The enclosure width must be at least four times the busbar gap.
    EnclosureWidthTooSmall { width: Distance, min: Distance },
    /// The derived enclosure-size correction factor fell outside zero to
    /// three.
    CorrectionFactorOutOfRange { cf: Ratio },
    /// The bolted-fault current lies outside the calculation range for the
    /// profile's voltage class.
    BoltedFaultCurrentOutOfRange { i_bf: Current, min: Current, max: Current },
}

} // verus!
