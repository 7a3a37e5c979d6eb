use vstd::prelude::*;

verus! {

/// An exact rational number with a positive denominator. Derived correction
/// factors are kept in this form so that no rounding enters the model's
/// validity checks.
#[derive(PartialEq, Eq, Structural, Copy, Clone, Debug)]
pub struct Ratio {
    pub num: i128,
    pub den: i128,
}

impl Ratio {
    /// Well-formed: the denominator is positive, so the represented value is
    /// `num / den` with the usual sign convention.
    pub open spec fn wf(self) -> bool {
        self.den > 0
    }

    /// The rational one, used for configurations that take no correction.
    pub fn one() -> (r: Ratio)
        ensures
            r.num == 1,
            r.den == 1,
    {
        Ratio { num: 1, den: 1 }
    }
}

/// A product of nonnegative factors is bounded by the product of their
/// bounds.
pub proof fn lemma_mul_le(x: int, y: int, bx: int, by: int)
    by (nonlinear_arith)
    requires
        0 <= x <= bx,
        0 <= y <= by,
    ensures
        0 <= x * y <= bx * by,
{
}

/// A product of factors bounded in magnitude is bounded in magnitude by
/// the product of the bounds.
pub proof fn lemma_abs_mul_le(x: int, y: int, bx: int, by: int)
    by (nonlinear_arith)
    requires
        -bx <= x <= bx,
        -by <= y <= by,
        0 <= bx,
        0 <= by,
    ensures
        -(bx * by) <= x * y <= bx * by,
{
}

} // verus!
