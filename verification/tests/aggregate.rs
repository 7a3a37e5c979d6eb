use arcflash::multistep_band_energies;
use arcflash::multistep_total_energy;
use arcflash::table_1;
use arcflash::table_2;
use arcflash::table_3;
use arcflash::table_5;
use arcflash::table_7;
use arcflash::ArcDuration;
use arcflash::Distance;
use arcflash::EAfb;
use arcflash::EAfbHV;
use arcflash::EAfbLV;
use arcflash::ElectrodeConfiguration;
use arcflash::EnclosureType;
use arcflash::Energy;
use arcflash::NominalVoltage;

fn hv_step(t_us: u64, e600: u64, e2700: u64, e14300: u64, e: u64) -> EAfb {
    EAfb::HighVoltage(EAfbHV {
        t_arc: ArcDuration::from_microseconds(t_us),
        afb_14300: Distance::from_micrometres(0),
        afb_2700: Distance::from_micrometres(0),
        afb_600: Distance::from_micrometres(0),
        afb: Distance::from_micrometres(0),
        e_14300: Energy::from_nanojoules_per_sq_cm(e14300),
        e_2700: Energy::from_nanojoules_per_sq_cm(e2700),
        e_600: Energy::from_nanojoules_per_sq_cm(e600),
        e: Energy::from_nanojoules_per_sq_cm(e),
    })
}

/// The total energy of a multistep calculation is the arithmetic sum of
/// the steps' final energies.
#[test]
fn test_total_energy_sums() {
    let steps = vec![
        hv_step(100_000, 4_000, 5_000, 6_000, 5_000),
        hv_step(97_000, 4_100, 5_100, 6_100, 5_200),
    ];
    assert_eq!(
        multistep_total_energy(&steps),
        Some(Energy::from_nanojoules_per_sq_cm(10_200))
    );
}

/// Low-voltage steps aggregate by their final energies alone.
#[test]
fn test_total_energy_lv_steps() {
    let steps = vec![
        EAfb::LowVoltage(EAfbLV {
            t_arc: ArcDuration::from_milliseconds(50),
            afb: Distance::from_micrometres(900_000),
            e: Energy::from_nanojoules_per_sq_cm(9_449_000_000),
        }),
        EAfb::LowVoltage(EAfbLV {
            t_arc: ArcDuration::from_milliseconds(11),
            afb: Distance::from_micrometres(400_000),
            e: Energy::from_nanojoules_per_sq_cm(2_136_000_000),
        }),
    ];
    assert_eq!(
        multistep_total_energy(&steps),
        Some(Energy::from_nanojoules_per_sq_cm(11_585_000_000))
    );
}

/// An energy total beyond the representable range reports failure instead
/// of wrapping.
#[test]
fn test_total_energy_overflow() {
    let steps = vec![
        hv_step(1, u64::MAX - 5, 0, 0, u64::MAX - 5),
        hv_step(1, 10, 0, 0, 10),
    ];
    assert_eq!(multistep_total_energy(&steps), None);
}

/// Per-band totals sum each reference band independently across the
/// steps; a split duration reproduces the one-step band totals exactly.
#[test]
fn test_band_energies_split() {
    // one step of 197 ms, against 170 ms + 27 ms at the same per-band rate
    let rate = (43_918_000u64, 60_797_000u64, 67_852_000u64);
    let one = vec![hv_step(
        197_000,
        rate.0 * 197,
        rate.1 * 197,
        rate.2 * 197,
        0,
    )];
    let two = vec![
        hv_step(170_000, rate.0 * 170, rate.1 * 170, rate.2 * 170, 0),
        hv_step(27_000, rate.0 * 27, rate.1 * 27, rate.2 * 27, 0),
    ];
    assert_eq!(
        multistep_band_energies(&one).unwrap(),
        multistep_band_energies(&two).unwrap()
    );
}

/// The arcing-current table rows used by the Annex D.1 example.
#[test]
fn test_table_1_vcb_rows() {
    let r600 = table_1(ElectrodeConfiguration::VCB, NominalVoltage::V600);
    assert_eq!(r600.k1, -42_870_000_000_000);
    assert_eq!(r600.k2, 1_035_000_000_000_000);
    assert_eq!(r600.k3, -83_000_000_000_000);
    assert_eq!(r600.k10, 1_092_000_000_000_000);
    let r14300 = table_1(ElectrodeConfiguration::VCB, NominalVoltage::V14300);
    assert_eq!(r14300.k1, 5_795_000_000_000);
    assert_eq!(r14300.k4, -1_557);
}

/// The variation-polynomial and incident-energy rows used by the annex
/// examples.
#[test]
fn test_energy_and_variation_rows() {
    let v = table_2(ElectrodeConfiguration::VCB);
    assert_eq!(v.k1, 0);
    assert_eq!(v.k2, -142_690);
    assert_eq!(v.k7, 30_226_000_000);
    let e600 = table_3(ElectrodeConfiguration::VCB);
    assert_eq!(e600.k1, 753_364_000_000_000);
    assert_eq!(e600.k12, -1_598_000_000_000_000);
    assert_eq!(e600.k13, 957_000_000_000_000);
    let e14300 = table_5(ElectrodeConfiguration::HOA);
    assert_eq!(e14300.k11, -50_000_000_000_000);
    let t7 = table_7(EnclosureType::Typical, ElectrodeConfiguration::VCB);
    assert_eq!(t7.b1, -3_020);
    assert_eq!(t7.b2, 344_100);
    assert_eq!(t7.b3, 4_325_000);
}
