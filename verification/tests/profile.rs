use arcflash::ArcDuration;
use arcflash::Cubicle;
use arcflash::Current;
use arcflash::Distance;
use arcflash::Energy;
use arcflash::ElectrodeConfiguration;
use arcflash::EnclosureType;
use arcflash::RangeError;
use arcflash::Ratio;
use arcflash::Voltage;

fn ratio_f64(r: &Ratio) -> f64 {
    r.num as f64 / r.den as f64
}

fn approx(a: f64, b: f64, eps: f64) -> bool {
    (a - b).abs() <= eps
}

fn annex_d1_cubicle() -> Cubicle {
    Cubicle::new(
        Voltage::from_millivolts(4_160_000),
        ElectrodeConfiguration::VCB,
        Distance::from_micrometres(104_000),
        Distance::from_micrometres(914_400),
        Distance::from_micrometres(1_143_000),
        Distance::from_micrometres(762_000),
        Distance::from_micrometres(508_000),
    )
    .unwrap()
}

fn annex_d2_cubicle() -> Cubicle {
    Cubicle::new(
        Voltage::from_millivolts(480_000),
        ElectrodeConfiguration::VCB,
        Distance::from_micrometres(32_000),
        Distance::from_micrometres(609_600),
        Distance::from_micrometres(610_000),
        Distance::from_micrometres(610_000),
        Distance::from_micrometres(254_000),
    )
    .unwrap()
}

/// Annex D.1 enclosure values: equivalent width 27.632 in, equivalent
/// height 45.0 in, EES 36.316 in, CF 1.284.
#[test]
fn test_annex_d1_enclosure() {
    let c = annex_d1_cubicle();
    assert!(c.hv);
    assert_eq!(c.enclosure_type, EnclosureType::Typical);
    let detail = c.detail.unwrap();
    assert!(approx(ratio_f64(&detail.width), 27.632, 1e-3));
    assert!(approx(ratio_f64(&detail.height), 45.0, 1e-3));
    assert!(approx(ratio_f64(&detail.ees), 36.316, 1e-3));
    assert!(approx(ratio_f64(&c.cf), 1.284, 1e-3));
}

/// Annex D.1 arcing-current variation factor: var_cf 0.047, reduction
/// factor 0.977.
#[test]
fn test_annex_d1_var_cf() {
    let c = annex_d1_cubicle();
    let v = ratio_f64(&c.var_cf);
    assert!(approx(v, 0.047, 1e-3));
    assert!(approx(1.0 - 0.5 * v, 0.977, 1e-3));
}

/// Annex D.2 enclosure values: equivalent width, height and EES all
/// 24.016 in, CF 1.085.
#[test]
fn test_annex_d2_enclosure() {
    let c = annex_d2_cubicle();
    assert!(!c.hv);
    assert_eq!(c.enclosure_type, EnclosureType::Typical);
    let detail = c.detail.unwrap();
    assert!(approx(ratio_f64(&detail.width), 24.016, 1e-3));
    assert!(approx(ratio_f64(&detail.height), 24.016, 1e-3));
    assert!(approx(ratio_f64(&detail.ees), 24.016, 1e-3));
    assert!(approx(ratio_f64(&c.cf), 1.085, 1e-3));
}

/// Annex D.2 arcing-current variation factor: var_cf 0.247, reduction
/// factor 0.877.
#[test]
fn test_annex_d2_var_cf() {
    let c = annex_d2_cubicle();
    let v = ratio_f64(&c.var_cf);
    assert!(approx(v, 0.247, 1e-3));
    assert!(approx(1.0 - 0.5 * v, 0.877, 1e-3));
}

/// Identical physical inputs written in different consistent units build
/// identical profiles, exactly.
#[test]
fn test_unit_conversion_invariance_hv() {
    let a = annex_d1_cubicle();
    let b = Cubicle::new(
        Voltage::from_volts(4_160),
        ElectrodeConfiguration::VCB,
        Distance::from_millimetres(104),
        Distance::from_micrometres(914_400),
        Distance::from_millimetres(1_143),
        Distance::from_millimetres(762),
        Distance::from_millimetres(508),
    )
    .unwrap();
    assert_eq!(a, b);
}

/// Identical physical inputs written in different consistent units build
/// identical profiles, exactly (low-voltage example).
#[test]
fn test_unit_conversion_invariance_lv() {
    let a = annex_d2_cubicle();
    let b = Cubicle::new(
        Voltage::from_volts(480),
        ElectrodeConfiguration::VCB,
        Distance::from_millimetres(32),
        Distance::from_micrometres(609_600),
        Distance::from_millimetres(610),
        Distance::from_millimetres(610),
        Distance::from_millimetres(254),
    )
    .unwrap();
    assert_eq!(a, b);
}

/// Each quantity constructor converts exactly, so the same physical value
/// written in any offered unit is the same value.
#[test]
fn test_unit_constructors_agree() {
    assert_eq!(Voltage::from_kilovolts(4), Voltage::from_volts(4_000));
    assert_eq!(Voltage::from_volts(480), Voltage::from_millivolts(480_000));
    assert_eq!(
        Distance::from_metres(1),
        Distance::from_micrometres(1_000_000)
    );
    assert_eq!(Distance::from_millimetres(914), Distance::from_micrometres(914_000));
    assert_eq!(
        Current::from_amperes(45_000),
        Current::from_kiloamperes(45)
    );
    assert_eq!(
        ArcDuration::from_seconds(1),
        ArcDuration::from_milliseconds(1_000)
    );
    assert_eq!(
        Energy::from_microjoules_per_sq_cm(5),
        Energy::from_nanojoules_per_sq_cm(5_000)
    );
}

/// A shallow enclosure needs voltage below 0.6 kV and height, width below
/// 508 mm with depth at most 203.2 mm.
#[test]
fn test_shallow_classification() {
    let c = Cubicle::new(
        Voltage::from_millivolts(400_000),
        ElectrodeConfiguration::VCB,
        Distance::from_millimetres(25),
        Distance::from_millimetres(457),
        Distance::from_micrometres(355_600),
        Distance::from_micrometres(304_800),
        Distance::from_millimetres(100),
    )
    .unwrap();
    assert_eq!(c.enclosure_type, EnclosureType::Shallow);
    // depth just over the threshold flips the classification
    let t = Cubicle::new(
        Voltage::from_millivolts(400_000),
        ElectrodeConfiguration::VCB,
        Distance::from_millimetres(25),
        Distance::from_millimetres(457),
        Distance::from_micrometres(355_600),
        Distance::from_micrometres(304_800),
        Distance::from_micrometres(203_300),
    )
    .unwrap();
    assert_eq!(t.enclosure_type, EnclosureType::Typical);
}

/// Open-air configurations take no enclosure correction: CF is exactly one.
#[test]
fn test_open_air_cf_is_one() {
    let c = Cubicle::new(
        Voltage::from_millivolts(4_160_000),
        ElectrodeConfiguration::VOA,
        Distance::from_millimetres(104),
        Distance::from_micrometres(914_400),
        Distance::from_millimetres(1_143),
        Distance::from_millimetres(762),
        Distance::from_millimetres(508),
    )
    .unwrap();
    assert_eq!(c.cf, Ratio { num: 1, den: 1 });
    assert!(c.detail.is_none());
}

/// Every accepted profile carries a correction factor in [0, 3].
#[test]
fn test_cf_within_bounds() {
    for c in [annex_d1_cubicle(), annex_d2_cubicle()] {
        let cf = ratio_f64(&c.cf);
        assert!((0.0..=3.0).contains(&cf));
    }
}

/// A low-voltage gap below 6.35 mm is rejected with the offending value
/// and the bound.
#[test]
fn test_gap_too_small() {
    let r = Cubicle::new(
        Voltage::from_millivolts(480_000),
        ElectrodeConfiguration::VCB,
        Distance::from_millimetres(5),
        Distance::from_millimetres(610),
        Distance::from_millimetres(610),
        Distance::from_millimetres(610),
        Distance::from_millimetres(254),
    );
    assert_eq!(
        r.unwrap_err(),
        RangeError::GapTooSmall {
            gap: Distance::from_millimetres(5),
            min: Distance::from_micrometres(6_350)
        }
    );
}

/// A high-voltage gap above 254 mm is rejected.
#[test]
fn test_gap_too_large() {
    let r = Cubicle::new(
        Voltage::from_millivolts(4_160_000),
        ElectrodeConfiguration::VCB,
        Distance::from_millimetres(260),
        Distance::from_millimetres(914),
        Distance::from_millimetres(1_143),
        Distance::from_millimetres(1_143),
        Distance::from_millimetres(508),
    );
    assert_eq!(
        r.unwrap_err(),
        RangeError::GapTooLarge {
            gap: Distance::from_millimetres(260),
            max: Distance::from_micrometres(254_000)
        }
    );
}

/// A working distance below 305 mm is rejected.
#[test]
fn test_working_distance_too_small() {
    let r = Cubicle::new(
        Voltage::from_millivolts(4_160_000),
        ElectrodeConfiguration::VCB,
        Distance::from_millimetres(104),
        Distance::from_millimetres(300),
        Distance::from_millimetres(1_143),
        Distance::from_millimetres(762),
        Distance::from_millimetres(508),
    );
    assert_eq!(
        r.unwrap_err(),
        RangeError::WorkingDistanceTooSmall {
            d: Distance::from_millimetres(300),
            min: Distance::from_micrometres(305_000)
        }
    );
}

/// An enclosure width under four busbar gaps is rejected.
#[test]
fn test_enclosure_width_too_small() {
    let r = Cubicle::new(
        Voltage::from_millivolts(4_160_000),
        ElectrodeConfiguration::VCB,
        Distance::from_millimetres(104),
        Distance::from_millimetres(914),
        Distance::from_millimetres(1_143),
        Distance::from_millimetres(400),
        Distance::from_millimetres(508),
    );
    assert_eq!(
        r.unwrap_err(),
        RangeError::EnclosureWidthTooSmall {
            width: Distance::from_millimetres(400),
            min: Distance::from_micrometres(416_000)
        }
    );
}

/// A tiny shallow VCBB box drives the reciprocal correction factor far
/// above three: construction fails rather than clamping.
#[test]
fn test_cf_out_of_range() {
    let r = Cubicle::new(
        Voltage::from_millivolts(400_000),
        ElectrodeConfiguration::VCBB,
        Distance::from_millimetres(10),
        Distance::from_millimetres(457),
        Distance::from_millimetres(76),
        Distance::from_millimetres(76),
        Distance::from_millimetres(100),
    );
    match r {
        Err(RangeError::CorrectionFactorOutOfRange { cf }) => {
            assert!(ratio_f64(&cf) > 3.0);
        }
        other => panic!("expected a correction-factor error, got {:?}", other),
    }
}
