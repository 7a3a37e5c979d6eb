//! Arc-flash hazard quantities for three-phase AC equipment, following the
//! IEEE 1584-2018 empirical model.
//!
//! The crate holds the exact side of the model: physical quantities kept in
//! integer base units (millivolts, micrometres, milliamperes, microseconds),
//! equipment validation and classification, the published coefficient tables
//! as exact decimal mantissas, the enclosure-size correction factor computed
//! in exact rational arithmetic, the arcing-current variation factor, the
//! reduced-current scaling, the voltage-band interpolation, and the multistep
//! energy aggregation. The transcendental parts of the model (the
//! log-linear-times-polynomial equations) are floating-point and live with
//! the callers of this crate; every branch rule, table lookup, bound check
//! and piece of rational algebra they rely on is verified here.

pub mod common;
pub mod cubicle;
pub mod e_afb;
pub mod errors;
pub mod i_arc;
pub mod interp;
pub mod multistep;
pub mod rational;
pub mod tables;
pub mod units;

pub use common::boxed;
pub use common::ElectrodeConfiguration;
pub use common::EnclosureType;
pub use common::NominalVoltage;
pub use cubicle::BoxDimensions;
pub use cubicle::Cubicle;
pub use cubicle::EnclosureDetail;
pub use e_afb::e_afb_hv_from_bands;
pub use e_afb::EAfb;
pub use e_afb::EAfbHV;
pub use e_afb::EAfbLV;
pub use errors::RangeError;
pub use i_arc::check_i_bf_range;
pub use i_arc::i_arc_hv_from_intermediates;
pub use i_arc::i_arc_lv_from_parts;
pub use i_arc::i_arc_min;
pub use i_arc::IArc;
pub use i_arc::IArcHV;
pub use i_arc::IArcLV;
pub use interp::interpolate;
pub use interp::interpolate_c;
pub use interp::interpolate_checked;
pub use interp::interpolate_e;
pub use interp::interpolate_l;
pub use multistep::multistep_band_energies;
pub use multistep::multistep_total_energy;
pub use rational::Ratio;
pub use tables::table_1;
pub use tables::table_2;
pub use tables::table_3;
pub use tables::table_4;
pub use tables::table_5;
pub use tables::table_7;
pub use tables::Table1Row;
pub use tables::Table2Row;
pub use tables::Table3_4_5Row;
pub use tables::Table7Row;
pub use units::ArcDuration;
pub use units::Current;
pub use units::Distance;
pub use units::Energy;
pub use units::Voltage;
