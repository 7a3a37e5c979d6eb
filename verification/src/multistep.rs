use vstd::prelude::*;

use crate::e_afb::EAfb;
use crate::interp::lemma_interpolate_additive;
use crate::interp::x2_num;
use crate::interp::x3_num;
use crate::units::Energy;

verus! {

/// Sum of the final energies of the steps from index `i` on.
pub open spec fn spec_total_e_from(s: Seq<EAfb>, i: int) -> int
    decreases s.len() - i,
{
    if i < 0 || i >= s.len() {
        0
    } else {
        s[i].spec_e().njcm2 + spec_total_e_from(s, i + 1)
    }
}

/// Sum of the 0.6 kV intermediate energies of the steps from index `i`
/// on; meaningful when every step is high-voltage.
pub open spec fn spec_total_e_600_from(s: Seq<EAfb>, i: int) -> int
    decreases s.len() - i,
{
    if i < 0 || i >= s.len() {
        0
    } else {
        (match s[i] {
            EAfb::HighVoltage(h) => h.e_600.njcm2 as int,
            EAfb::LowVoltage(_) => 0,
        }) + spec_total_e_600_from(s, i + 1)
    }
}

/// Sum of the 2.7 kV intermediate energies of the steps from index `i` on.
pub open spec fn spec_total_e_2700_from(s: Seq<EAfb>, i: int) -> int
    decreases s.len() - i,
{
    if i < 0 || i >= s.len() {
        0
    } else {
        (match s[i] {
            EAfb::HighVoltage(h) => h.e_2700.njcm2 as int,
            EAfb::LowVoltage(_) => 0,
        }) + spec_total_e_2700_from(s, i + 1)
    }
}

/// Sum of the 14.3 kV intermediate energies of the steps from index `i` on.
pub open spec fn spec_total_e_14300_from(s: Seq<EAfb>, i: int) -> int
    decreases s.len() - i,
{
    if i < 0 || i >= s.len() {
        0
    } else {
        (match s[i] {
            EAfb::HighVoltage(h) => h.e_14300.njcm2 as int,
            EAfb::LowVoltage(_) => 0,
        }) + spec_total_e_14300_from(s, i + 1)
    }
}

proof fn lemma_totals_nonneg(s: Seq<EAfb>, i: int)
    ensures
        spec_total_e_from(s, i) >= 0,
        spec_total_e_600_from(s, i) >= 0,
        spec_total_e_2700_from(s, i) >= 0,
        spec_total_e_14300_from(s, i) >= 0,
    decreases s.len() - i,
{
    if 0 <= i < s.len() {
        lemma_totals_nonneg(s, i + 1);
    }
}

/// Total incident energy of a multistep calculation: the arithmetic sum
/// of each step's final energy, in the energy domain where the model is
/// additive. `None` exactly when the sum leaves the representable range.
pub fn multistep_total_energy(steps: &Vec<EAfb>) -> (r: Option<Energy>)
    ensures
        r matches Some(e) ==> e.njcm2 == spec_total_e_from(steps@, 0),
        (r is None) == (spec_total_e_from(steps@, 0) > u64::MAX),
{
    let mut sum: u64 = 0;
    let mut i: usize = 0;
    while i < steps.len()
        invariant
            0 <= i <= steps.len(),
            sum + spec_total_e_from(steps@, i as int) == spec_total_e_from(steps@, 0),
        decreases steps.len() - i,
    {
        let ei = steps[i].e();
        proof {
            lemma_totals_nonneg(steps@, i + 1);
        }
        match sum.checked_add(ei.njcm2) {
            Some(s) => {
                sum = s;
            },
            None => {
                return None;
            },
        }
        i = i + 1;
    }
    Some(Energy { njcm2: sum })
}

/// Per-band total intermediate energies of a high-voltage multistep
/// calculation, summed independently across the steps: the aggregation
/// back-calculates one boundary per band from these and interpolates the
/// three boundaries. `None` exactly when some band total leaves the
/// representable range.
pub fn multistep_band_energies(steps: &Vec<EAfb>) -> (r: Option<(Energy, Energy, Energy)>)
    requires
        forall|i: int| 0 <= i < steps@.len() ==> steps@[i] is HighVoltage,
    ensures
        r matches Some(t) ==> {
            &&& t.0.njcm2 == spec_total_e_600_from(steps@, 0)
            &&& t.1.njcm2 == spec_total_e_2700_from(steps@, 0)
            &&& t.2.njcm2 == spec_total_e_14300_from(steps@, 0)
        },
        (r is None) == (spec_total_e_600_from(steps@, 0) > u64::MAX || spec_total_e_2700_from(
            steps@,
            0,
        ) > u64::MAX || spec_total_e_14300_from(steps@, 0) > u64::MAX),
{
    let mut s600: u64 = 0;
    let mut s2700: u64 = 0;
    let mut s14300: u64 = 0;
    let mut i: usize = 0;
    while i < steps.len()
        invariant
            0 <= i <= steps.len(),
            forall|j: int| 0 <= j < steps@.len() ==> steps@[j] is HighVoltage,
            s600 + spec_total_e_600_from(steps@, i as int) == spec_total_e_600_from(steps@, 0),
            s2700 + spec_total_e_2700_from(steps@, i as int) == spec_total_e_2700_from(steps@, 0),
            s14300 + spec_total_e_14300_from(steps@, i as int) == spec_total_e_14300_from(
                steps@,
                0,
            ),
        decreases steps.len() - i,
    {
        let h = steps[i].hv();
        proof {
            lemma_totals_nonneg(steps@, i + 1);
        }
        let n600 = match s600.checked_add(h.e_600.njcm2) {
            Some(s) => s,
            None => {
                return None;
            },
        };
        let n2700 = match s2700.checked_add(h.e_2700.njcm2) {
            Some(s) => s,
            None => {
                return None;
            },
        };
        let n14300 = match s14300.checked_add(h.e_14300.njcm2) {
            Some(s) => s,
            None => {
                return None;
            },
        };
        s600 = n600;
        s2700 = n2700;
        s14300 = n14300;
        i = i + 1;
    }
    Some((Energy { njcm2: s600 }, Energy { njcm2: s2700 }, Energy { njcm2: s14300 }))
}

/// Multistep equivalence, in the exact algebra of the model: each band's
/// intermediate energy is the arc duration times a duration-free factor,
/// so splitting one duration into two sequential sub-durations leaves
/// every per-band total unchanged, and therefore also the interpolated
/// total energy the aggregation reports.
pub proof fn lemma_multistep_split(
    mv: int,
    t_1: int,
    t_2: int,
    f_600: int,
    f_2700: int,
    f_14300: int,
)
    ensures
        x2_num(mv, (t_1 + t_2) * f_2700, (t_1 + t_2) * f_14300) == x2_num(
            mv,
            t_1 * f_2700,
            t_1 * f_14300,
        ) + x2_num(mv, t_2 * f_2700, t_2 * f_14300),
        x3_num(mv, (t_1 + t_2) * f_600, (t_1 + t_2) * f_2700, (t_1 + t_2) * f_14300) == x3_num(
            mv,
            t_1 * f_600,
            t_1 * f_2700,
            t_1 * f_14300,
        ) + x3_num(mv, t_2 * f_600, t_2 * f_2700, t_2 * f_14300),
{
    assert((t_1 + t_2) * f_600 == t_1 * f_600 + t_2 * f_600) by (nonlinear_arith);
    assert((t_1 + t_2) * f_2700 == t_1 * f_2700 + t_2 * f_2700) by (nonlinear_arith);
    assert((t_1 + t_2) * f_14300 == t_1 * f_14300 + t_2 * f_14300) by (nonlinear_arith);
    lemma_interpolate_additive(
        mv,
        t_1 * f_600,
        t_1 * f_2700,
        t_1 * f_14300,
        t_2 * f_600,
        t_2 * f_2700,
        t_2 * f_14300,
    );
}

} // verus!
