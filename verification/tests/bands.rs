use arcflash::e_afb_hv_from_bands;
use arcflash::i_arc_hv_from_intermediates;
use arcflash::i_arc_lv_from_parts;
use arcflash::i_arc_min;
use arcflash::interpolate;
use arcflash::interpolate_checked;
use arcflash::ArcDuration;
use arcflash::Cubicle;
use arcflash::Current;
use arcflash::Distance;
use arcflash::EAfb;
use arcflash::ElectrodeConfiguration;
use arcflash::Energy;
use arcflash::IArc;
use arcflash::RangeError;
use arcflash::Voltage;

fn annex_d1_cubicle() -> Cubicle {
    Cubicle::new(
        Voltage::from_millivolts(4_160_000),
        ElectrodeConfiguration::VCB,
        Distance::from_micrometres(104_000),
        Distance::from_micrometres(914_400),
        Distance::from_micrometres(1_143_000),
        Distance::from_micrometres(762_000),
        Distance::from_micrometres(508_000),
    )
    .unwrap()
}

fn annex_d2_cubicle() -> Cubicle {
    Cubicle::new(
        Voltage::from_millivolts(480_000),
        ElectrodeConfiguration::VCB,
        Distance::from_micrometres(32_000),
        Distance::from_micrometres(609_600),
        Distance::from_micrometres(610_000),
        Distance::from_micrometres(610_000),
        Distance::from_micrometres(254_000),
    )
    .unwrap()
}

/// Annex D.1 final arcing current: interpolating the three intermediate
/// currents at 4.16 kV gives 12.979 kA.
#[test]
fn test_interpolate_annex_currents() {
    let v = Voltage::from_millivolts(4_160_000);
    let r = interpolate(v, 11_117_000, 12_816_000, 14_116_000);
    assert!((r - 12_979_000).abs() <= 1_000);
    let r_min = interpolate(v, 10_856_000, 12_515_000, 13_786_000);
    assert!((r_min - 12_675_000).abs() <= 1_000);
}

/// Annex D.1 final energies: interpolating the three intermediate
/// energies gives 12.152 J/cm2 (full) and 13.343 J/cm2 (reduced).
#[test]
fn test_interpolate_annex_energies() {
    let v = Voltage::from_millivolts(4_160_000);
    let r = interpolate(v, 8_652_000_000, 11_977_000_000, 13_367_000_000);
    assert!((r - 12_152_000_000i64).abs() <= 1_000_000);
    let r_min = interpolate(v, 8_980_000_000, 13_018_000_000, 15_602_000_000);
    assert!((r_min - 13_343_000_000i64).abs() <= 1_000_000);
}

/// Annex D.1 final boundaries: interpolating the three intermediate
/// boundaries gives 1606 mm (full) and 1704 mm (reduced).
#[test]
fn test_interpolate_annex_boundaries() {
    let v = Voltage::from_millivolts(4_160_000);
    let r = interpolate(v, 1_285_000, 1_591_000, 1_707_000);
    assert!((r - 1_606_000).abs() <= 1_000);
    let r_min = interpolate(v, 1_316_000, 1_678_000, 1_884_000);
    assert!((r_min - 1_704_000).abs() <= 1_000);
}

/// Above 2.7 kV the 14.3 kV-anchored line is used; at 14.3 kV itself it
/// passes through the 14.3 kV value.
#[test]
fn test_interpolate_high_branch() {
    let r = interpolate(Voltage::from_millivolts(14_300_000), 100, 200, 300);
    assert_eq!(r, 300);
    let r8 = interpolate(Voltage::from_millivolts(8_500_000), 0, 2_700_000, 14_300_000);
    assert!(r8 > 2_700_000 && r8 < 14_300_000);
}

/// The checked interpolation refuses band values outside the bound and
/// accepts everything inside it.
#[test]
fn test_interpolate_checked_bound() {
    let v = Voltage::from_millivolts(4_160_000);
    assert_eq!(interpolate_checked(v, 1, 2, 3), Some(interpolate(v, 1, 2, 3)));
    assert_eq!(interpolate_checked(v, 1_000_000_000_000_001, 2, 3), None);
}

/// The reduced current is the full current scaled by the reduction
/// factor; on the Annex D.2 profile 28.793 kA reduces to 25.244 kA.
#[test]
fn test_i_arc_min_annex_d2() {
    let c = annex_d2_cubicle();
    let r = i_arc_min(&c, Current::from_milliamperes(28_793_000));
    assert!((r.ma as i64 - 25_244_000).abs() <= 1_000);
    assert!(r.ma <= 28_793_000);
}

/// Assembling the Annex D.1 high-voltage arcing-current result: the
/// intermediates are stored and the final current interpolated.
#[test]
fn test_i_arc_hv_assembly() {
    let c = annex_d1_cubicle();
    let ia = i_arc_hv_from_intermediates(
        &c,
        Current::from_kiloamperes(15),
        false,
        Current::from_milliamperes(11_117_000),
        Current::from_milliamperes(12_816_000),
        Current::from_milliamperes(14_116_000),
    )
    .unwrap();
    let hv = ia.hv();
    assert_eq!(hv.i_bf, Current::from_kiloamperes(15));
    assert!(!hv.reduced);
    assert_eq!(hv.i_arc_600.ma, 11_117_000);
    assert!((hv.i_arc.ma as i64 - 12_979_000).abs() <= 1_000);
    assert_eq!(ia.i_arc(), hv.i_arc);
    assert_eq!(ia.i_bf().ma, 15_000_000);
}

/// The reduced high-voltage assembly scales each band before
/// interpolating, and every reduced band stays below its full value.
#[test]
fn test_i_arc_hv_assembly_reduced() {
    let c = annex_d1_cubicle();
    let ia = i_arc_hv_from_intermediates(
        &c,
        Current::from_kiloamperes(15),
        true,
        Current::from_milliamperes(11_117_000),
        Current::from_milliamperes(12_816_000),
        Current::from_milliamperes(14_116_000),
    )
    .unwrap();
    let hv = ia.hv();
    assert!(hv.reduced);
    assert!((hv.i_arc_600.ma as i64 - 10_856_000).abs() <= 1_000);
    assert!((hv.i_arc_2700.ma as i64 - 12_515_000).abs() <= 1_000);
    assert!((hv.i_arc_14300.ma as i64 - 13_786_000).abs() <= 1_000);
    assert!((hv.i_arc.ma as i64 - 12_675_000).abs() <= 1_000);
    assert!(hv.i_arc_600.ma <= 11_117_000);
    assert!(hv.i_arc_2700.ma <= 12_816_000);
    assert!(hv.i_arc_14300.ma <= 14_116_000);
}

/// A bolted-fault current outside 0.2 kA to 65 kA is rejected for a
/// high-voltage profile.
#[test]
fn test_i_bf_out_of_range_hv() {
    let c = annex_d1_cubicle();
    let r = i_arc_hv_from_intermediates(
        &c,
        Current::from_kiloamperes(70),
        false,
        Current::from_milliamperes(1),
        Current::from_milliamperes(1),
        Current::from_milliamperes(1),
    );
    assert_eq!(
        r.unwrap_err(),
        RangeError::BoltedFaultCurrentOutOfRange {
            i_bf: Current::from_kiloamperes(70),
            min: Current::from_milliamperes(200_000),
            max: Current::from_milliamperes(65_000_000),
        }
    );
}

/// A bolted-fault current outside 0.5 kA to 106 kA is rejected for a
/// low-voltage profile, and the low-voltage assembly keeps the 0.6 kV
/// intermediate at full value while reducing only the final current.
#[test]
fn test_i_arc_lv_assembly() {
    let c = annex_d2_cubicle();
    let err = i_arc_lv_from_parts(
        &c,
        Current::from_milliamperes(300_000),
        false,
        Current::from_milliamperes(1),
        Current::from_milliamperes(1),
    );
    assert_eq!(
        err.unwrap_err(),
        RangeError::BoltedFaultCurrentOutOfRange {
            i_bf: Current::from_milliamperes(300_000),
            min: Current::from_milliamperes(500_000),
            max: Current::from_milliamperes(106_000_000),
        }
    );
    let ia = i_arc_lv_from_parts(
        &c,
        Current::from_kiloamperes(45),
        true,
        Current::from_milliamperes(32_449_000),
        Current::from_milliamperes(28_793_000),
    )
    .unwrap();
    let lv = ia.lv();
    assert_eq!(lv.i_arc_600.ma, 32_449_000);
    assert!((lv.i_arc.ma as i64 - 25_244_000).abs() <= 1_000);
    match ia {
        IArc::LowVoltage(_) => {}
        IArc::HighVoltage(_) => panic!("wrong voltage class"),
    }
}

/// Below 0.208 kV the model states no bolted-fault-current range: the
/// low-voltage assembly accepts what a 0.48 kV profile would reject.
#[test]
fn test_i_bf_unchecked_below_model_floor() {
    let c = Cubicle::new(
        Voltage::from_millivolts(100_000),
        ElectrodeConfiguration::VCB,
        Distance::from_millimetres(10),
        Distance::from_millimetres(400),
        Distance::from_millimetres(600),
        Distance::from_millimetres(600),
        Distance::from_millimetres(254),
    )
    .unwrap();
    let r = i_arc_lv_from_parts(
        &c,
        Current::from_milliamperes(300_000),
        false,
        Current::from_milliamperes(1_000_000),
        Current::from_milliamperes(900_000),
    );
    assert!(r.is_ok());
}

/// Assembling the Annex D.1 energy-and-boundary result from its band
/// values: final energy 12.152 J/cm2 and final boundary 1606 mm.
#[test]
fn test_e_afb_hv_assembly() {
    let c = annex_d1_cubicle();
    let r = e_afb_hv_from_bands(
        &c,
        ArcDuration::from_microseconds(197_000),
        Energy::from_nanojoules_per_sq_cm(8_652_000_000),
        Energy::from_nanojoules_per_sq_cm(11_977_000_000),
        Energy::from_nanojoules_per_sq_cm(13_367_000_000),
        Distance::from_micrometres(1_285_000),
        Distance::from_micrometres(1_591_000),
        Distance::from_micrometres(1_707_000),
    );
    match r {
        EAfb::HighVoltage(h) => {
            assert_eq!(h.t_arc, ArcDuration::from_microseconds(197_000));
            assert_eq!(h.e_600.njcm2, 8_652_000_000);
            assert!((h.e.njcm2 as i64 - 12_152_000_000).abs() <= 1_000_000);
            assert!((h.afb.um as i64 - 1_606_000).abs() <= 1_000);
        }
        EAfb::LowVoltage(_) => panic!("wrong voltage class"),
    }
}
