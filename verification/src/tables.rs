use vstd::prelude::*;

use crate::common::ElectrodeConfiguration;
use crate::common::EnclosureType;
use crate::common::NominalVoltage;

verus! {

/// One row of the arcing-current coefficient table (Table 1 of the model):
/// `k1..k3` feed the log-linear part and `k4..k10` the degree-six
/// correction polynomial in bolted-fault current. Every field is an exact
/// decimal mantissa at a scale of ten to the minus fifteenth.
#[derive(PartialEq, Eq, Structural, Copy, Clone, Debug)]
pub struct Table1Row {
    pub k1: i64,
    pub k2: i64,
    pub k3: i64,
    pub k4: i64,
    pub k5: i64,
    pub k6: i64,
    pub k7: i64,
    pub k8: i64,
    pub k9: i64,
    pub k10: i64,
}

/// One row of the arcing-current variation table (Table 2 of the model):
/// coefficients of the degree-six polynomial in nominal voltage that yields
/// `var_cf`. Exact decimal mantissas at a scale of ten to the minus
/// eleventh.
#[derive(PartialEq, Eq, Structural, Copy, Clone, Debug)]
pub struct Table2Row {
    pub k1: i64,
    pub k2: i64,
    pub k3: i64,
    pub k4: i64,
    pub k5: i64,
    pub k6: i64,
    pub k7: i64,
}

/// One row of the incident-energy coefficient tables (Tables 3, 4 and 5 of
/// the model, one per reference voltage band). `k12` is the distance
/// exponent. Exact decimal mantissas at a scale of ten to the minus
/// fifteenth.
#[derive(PartialEq, Eq, Structural, Copy, Clone, Debug)]
pub struct Table3_4_5Row {
    pub k1: i64,
    pub k2: i64,
    pub k3: i64,
    pub k4: i64,
    pub k5: i64,
    pub k6: i64,
    pub k7: i64,
    pub k8: i64,
    pub k9: i64,
    pub k10: i64,
    pub k11: i64,
    pub k12: i64,
    pub k13: i64,
}

/// One row of the enclosure-size correction table (Table 7 of the model):
/// coefficients of the quadratic in equivalent enclosure size. Exact
/// decimal mantissas at a scale of ten to the minus seventh.
#[derive(PartialEq, Eq, Structural, Copy, Clone, Debug)]
pub struct Table7Row {
    pub b1: i64,
    pub b2: i64,
    pub b3: i64,
}

/// Arcing-current coefficients by electrode configuration and reference voltage.
pub open spec fn spec_table_1(ec: ElectrodeConfiguration, v: NominalVoltage) -> Table1Row {
    match (ec, v) {
        (ElectrodeConfiguration::VCB, NominalVoltage::V600) => Table1Row {
            k1: -42_870_000_000_000i64,
            k2: 1_035_000_000_000_000,
            k3: -83_000_000_000_000i64,
            k4: 0,
            k5: 0,
            k6: -4_783_000i64,
            k7: 1_962_000_000,
            k8: -229_000_000_000i64,
            k9: 3_141_000_000_000,
            k10: 1_092_000_000_000_000,
        },
        (ElectrodeConfiguration::VCB, NominalVoltage::V2700) => Table1Row {
            k1: 6_500_000_000_000,
            k2: 1_001_000_000_000_000,
            k3: -24_000_000_000_000i64,
            k4: -1_557i64,
            k5: 455_600,
            k6: -41_860_000i64,
            k7: 834_600_000,
            k8: 54_820_000_000,
            k9: -3_191_000_000_000i64,
            k10: 972_900_000_000_000,
        },
        (ElectrodeConfiguration::VCB, NominalVoltage::V14300) => Table1Row {
            k1: 5_795_000_000_000,
            k2: 1_015_000_000_000_000,
            k3: -11_000_000_000_000i64,
            k4: -1_557i64,
            k5: 455_600,
            k6: -41_860_000i64,
            k7: 834_600_000,
            k8: 54_820_000_000,
            k9: -3_191_000_000_000i64,
            k10: 972_900_000_000_000,
        },
        (ElectrodeConfiguration::VCBB, NominalVoltage::V600) => Table1Row {
            k1: -17_432_000_000_000i64,
            k2: 980_000_000_000_000,
            k3: -50_000_000_000_000i64,
            k4: 0,
            k5: 0,
            k6: -5_767_000i64,
            k7: 2_524_000_000,
            k8: -340_000_000_000i64,
            k9: 11_870_000_000_000,
            k10: 1_013_000_000_000_000,
        },
        (ElectrodeConfiguration::VCBB, NominalVoltage::V2700) => Table1Row {
            k1: 2_823_000_000_000,
            k2: 995_000_000_000_000,
            k3: -12_500_000_000_000i64,
            k4: 0,
            k5: -92_040i64,
            k6: 29_010_000,
            k7: -3_262_000_000i64,
            k8: 156_900_000_000,
            k9: -4_003_000_000_000i64,
            k10: 982_500_000_000_000,
        },
        (ElectrodeConfiguration::VCBB, NominalVoltage::V14300) => Table1Row {
            k1: 14_827_000_000_000,
            k2: 1_010_000_000_000_000,
            k3: -10_000_000_000_000i64,
            k4: 0,
            k5: -92_040i64,
            k6: 29_010_000,
            k7: -3_262_000_000i64,
            k8: 156_900_000_000,
            k9: -4_003_000_000_000i64,
            k10: 982_500_000_000_000,
        },
        (ElectrodeConfiguration::HCB, NominalVoltage::V600) => Table1Row {
            k1: 54_922_000_000_000,
            k2: 988_000_000_000_000,
            k3: -110_000_000_000_000i64,
            k4: 0,
            k5: 0,
            k6: -5_382_000i64,
            k7: 2_316_000_000,
            k8: -302_000_000_000i64,
            k9: 9_100_000_000_000,
            k10: 972_500_000_000_000,
        },
        (ElectrodeConfiguration::HCB, NominalVoltage::V2700) => Table1Row {
            k1: 1_011_000_000_000,
            k2: 1_003_000_000_000_000,
            k3: -24_900_000_000_000i64,
            k4: 0,
            k5: 0,
            k6: 485_900,
            k7: -181_400_000i64,
            k8: -9_128_000_000i64,
            k9: -700_000_000_000i64,
            k10: 988_100_000_000_000,
        },
        (ElectrodeConfiguration::HCB, NominalVoltage::V14300) => Table1Row {
            k1: 8_693_000_000_000,
            k2: 999_000_000_000_000,
            k3: -20_000_000_000_000i64,
            k4: 0,
            k5: -50_430i64,
            k6: 22_330_000,
            k7: -3_046_000_000i64,
            k8: 116_000_000_000,
            k9: -1_145_000_000_000i64,
            k10: 983_900_000_000_000,
        },
        (ElectrodeConfiguration::VOA, NominalVoltage::V600) => Table1Row {
            k1: 43_785_000_000_000,
            k2: 1_040_000_000_000_000,
            k3: -180_000_000_000_000i64,
            k4: 0,
            k5: 0,
            k6: -4_783_000i64,
            k7: 1_962_000_000,
            k8: -229_000_000_000i64,
            k9: 3_141_000_000_000,
            k10: 1_092_000_000_000_000,
        },
        (ElectrodeConfiguration::VOA, NominalVoltage::V2700) => Table1Row {
            k1: -23_950_000_000_000i64,
            k2: 1_006_000_000_000_000,
            k3: -18_800_000_000_000i64,
            k4: -1_557i64,
            k5: 455_600,
            k6: -41_860_000i64,
            k7: 834_600_000,
            k8: 54_820_000_000,
            k9: -3_191_000_000_000i64,
            k10: 972_900_000_000_000,
        },
        (ElectrodeConfiguration::VOA, NominalVoltage::V14300) => Table1Row {
            k1: 5_371_000_000_000,
            k2: 1_010_200_000_000_000,
            k3: -29_000_000_000_000i64,
            k4: -1_557i64,
            k5: 455_600,
            k6: -41_860_000i64,
            k7: 834_600_000,
            k8: 54_820_000_000,
            k9: -3_191_000_000_000i64,
            k10: 972_900_000_000_000,
        },
        (ElectrodeConfiguration::HOA, NominalVoltage::V600) => Table1Row {
            k1: 111_147_000_000_000,
            k2: 1_008_000_000_000_000,
            k3: -240_000_000_000_000i64,
            k4: 0,
            k5: 0,
            k6: -3_895_000i64,
            k7: 1_641_000_000,
            k8: -197_000_000_000i64,
            k9: 2_615_000_000_000,
            k10: 1_100_000_000_000_000,
        },
        (ElectrodeConfiguration::HOA, NominalVoltage::V2700) => Table1Row {
            k1: 435_000_000_000,
            k2: 1_006_000_000_000_000,
            k3: -38_000_000_000_000i64,
            k4: 0,
            k5: 0,
            k6: 785_900,
            k7: -191_400_000i64,
            k8: -9_128_000_000i64,
            k9: -700_000_000_000i64,
            k10: 998_100_000_000_000,
        },
        (ElectrodeConfiguration::HOA, NominalVoltage::V14300) => Table1Row {
            k1: 904_000_000_000,
            k2: 999_000_000_000_000,
            k3: -20_000_000_000_000i64,
            k4: 0,
            k5: 0,
            k6: 785_900,
            k7: -191_400_000i64,
            k8: -9_128_000_000i64,
            k9: -700_000_000_000i64,
            k10: 998_100_000_000_000,
        },
    }
}

/// Executable lookup for [`spec_table_1`].
pub fn table_1(ec: ElectrodeConfiguration, v: NominalVoltage) -> (r: Table1Row)
    ensures
        r == spec_table_1(ec, v),
{
    match (ec, v) {
        (ElectrodeConfiguration::VCB, NominalVoltage::V600) => Table1Row {
            k1: -42_870_000_000_000i64,
            k2: 1_035_000_000_000_000,
            k3: -83_000_000_000_000i64,
            k4: 0,
            k5: 0,
            k6: -4_783_000i64,
            k7: 1_962_000_000,
            k8: -229_000_000_000i64,
            k9: 3_141_000_000_000,
            k10: 1_092_000_000_000_000,
        },
        (ElectrodeConfiguration::VCB, NominalVoltage::V2700) => Table1Row {
            k1: 6_500_000_000_000,
            k2: 1_001_000_000_000_000,
            k3: -24_000_000_000_000i64,
            k4: -1_557i64,
            k5: 455_600,
            k6: -41_860_000i64,
            k7: 834_600_000,
            k8: 54_820_000_000,
            k9: -3_191_000_000_000i64,
            k10: 972_900_000_000_000,
        },
        (ElectrodeConfiguration::VCB, NominalVoltage::V14300) => Table1Row {
            k1: 5_795_000_000_000,
            k2: 1_015_000_000_000_000,
            k3: -11_000_000_000_000i64,
            k4: -1_557i64,
            k5: 455_600,
            k6: -41_860_000i64,
            k7: 834_600_000,
            k8: 54_820_000_000,
            k9: -3_191_000_000_000i64,
            k10: 972_900_000_000_000,
        },
        (ElectrodeConfiguration::VCBB, NominalVoltage::V600) => Table1Row {
            k1: -17_432_000_000_000i64,
            k2: 980_000_000_000_000,
            k3: -50_000_000_000_000i64,
            k4: 0,
            k5: 0,
            k6: -5_767_000i64,
            k7: 2_524_000_000,
            k8: -340_000_000_000i64,
            k9: 11_870_000_000_000,
            k10: 1_013_000_000_000_000,
        },
        (ElectrodeConfiguration::VCBB, NominalVoltage::V2700) => Table1Row {
            k1: 2_823_000_000_000,
            k2: 995_000_000_000_000,
            k3: -12_500_000_000_000i64,
            k4: 0,
            k5: -92_040i64,
            k6: 29_010_000,
            k7: -3_262_000_000i64,
            k8: 156_900_000_000,
            k9: -4_003_000_000_000i64,
            k10: 982_500_000_000_000,
        },
        (ElectrodeConfiguration::VCBB, NominalVoltage::V14300) => Table1Row {
            k1: 14_827_000_000_000,
            k2: 1_010_000_000_000_000,
            k3: -10_000_000_000_000i64,
            k4: 0,
            k5: -92_040i64,
            k6: 29_010_000,
            k7: -3_262_000_000i64,
            k8: 156_900_000_000,
            k9: -4_003_000_000_000i64,
            k10: 982_500_000_000_000,
        },
        (ElectrodeConfiguration::HCB, NominalVoltage::V600) => Table1Row {
            k1: 54_922_000_000_000,
            k2: 988_000_000_000_000,
            k3: -110_000_000_000_000i64,
            k4: 0,
            k5: 0,
            k6: -5_382_000i64,
            k7: 2_316_000_000,
            k8: -302_000_000_000i64,
            k9: 9_100_000_000_000,
            k10: 972_500_000_000_000,
        },
        (ElectrodeConfiguration::HCB, NominalVoltage::V2700) => Table1Row {
            k1: 1_011_000_000_000,
            k2: 1_003_000_000_000_000,
            k3: -24_900_000_000_000i64,
            k4: 0,
            k5: 0,
            k6: 485_900,
            k7: -181_400_000i64,
            k8: -9_128_000_000i64,
            k9: -700_000_000_000i64,
            k10: 988_100_000_000_000,
        },
        (ElectrodeConfiguration::HCB, NominalVoltage::V14300) => Table1Row {
            k1: 8_693_000_000_000,
            k2: 999_000_000_000_000,
            k3: -20_000_000_000_000i64,
            k4: 0,
            k5: -50_430i64,
            k6: 22_330_000,
            k7: -3_046_000_000i64,
            k8: 116_000_000_000,
            k9: -1_145_000_000_000i64,
            k10: 983_900_000_000_000,
        },
        (ElectrodeConfiguration::VOA, NominalVoltage::V600) => Table1Row {
            k1: 43_785_000_000_000,
            k2: 1_040_000_000_000_000,
            k3: -180_000_000_000_000i64,
            k4: 0,
            k5: 0,
            k6: -4_783_000i64,
            k7: 1_962_000_000,
            k8: -229_000_000_000i64,
            k9: 3_141_000_000_000,
            k10: 1_092_000_000_000_000,
        },
        (ElectrodeConfiguration::VOA, NominalVoltage::V2700) => Table1Row {
            k1: -23_950_000_000_000i64,
            k2: 1_006_000_000_000_000,
            k3: -18_800_000_000_000i64,
            k4: -1_557i64,
            k5: 455_600,
            k6: -41_860_000i64,
            k7: 834_600_000,
            k8: 54_820_000_000,
            k9: -3_191_000_000_000i64,
            k10: 972_900_000_000_000,
        },
        (ElectrodeConfiguration::VOA, NominalVoltage::V14300) => Table1Row {
            k1: 5_371_000_000_000,
            k2: 1_010_200_000_000_000,
            k3: -29_000_000_000_000i64,
            k4: -1_557i64,
            k5: 455_600,
            k6: -41_860_000i64,
            k7: 834_600_000,
            k8: 54_820_000_000,
            k9: -3_191_000_000_000i64,
            k10: 972_900_000_000_000,
        },
        (ElectrodeConfiguration::HOA, NominalVoltage::V600) => Table1Row {
            k1: 111_147_000_000_000,
            k2: 1_008_000_000_000_000,
            k3: -240_000_000_000_000i64,
            k4: 0,
            k5: 0,
            k6: -3_895_000i64,
            k7: 1_641_000_000,
            k8: -197_000_000_000i64,
            k9: 2_615_000_000_000,
            k10: 1_100_000_000_000_000,
        },
        (ElectrodeConfiguration::HOA, NominalVoltage::V2700) => Table1Row {
            k1: 435_000_000_000,
            k2: 1_006_000_000_000_000,
            k3: -38_000_000_000_000i64,
            k4: 0,
            k5: 0,
            k6: 785_900,
            k7: -191_400_000i64,
            k8: -9_128_000_000i64,
            k9: -700_000_000_000i64,
            k10: 998_100_000_000_000,
        },
        (ElectrodeConfiguration::HOA, NominalVoltage::V14300) => Table1Row {
            k1: 904_000_000_000,
            k2: 999_000_000_000_000,
            k3: -20_000_000_000_000i64,
            k4: 0,
            k5: 0,
            k6: 785_900,
            k7: -191_400_000i64,
            k8: -9_128_000_000i64,
            k9: -700_000_000_000i64,
            k10: 998_100_000_000_000,
        },
    }
}

/// Arcing-current variation coefficients by electrode configuration.
pub open spec fn spec_table_2(ec: ElectrodeConfiguration) -> Table2Row {
    match ec {
        ElectrodeConfiguration::VCB => Table2Row {
            k1: 0,
            k2: -142_690i64,
            k3: 8_313_700,
            k4: -193_820_000i64,
            k5: 2_236_600_000,
            k6: -12_645_000_000i64,
            k7: 30_226_000_000,
        },
        ElectrodeConfiguration::VCBB => Table2Row {
            k1: 113_800,
            k2: -6_028_700i64,
            k3: 127_580_000,
            k4: -1_377_800_000i64,
            k5: 8_021_700_000,
            k6: -24_066_000_000i64,
            k7: 33_524_000_000,
        },
        ElectrodeConfiguration::HCB => Table2Row {
            k1: 0,
            k2: -309_700i64,
            k3: 16_405_000,
            k4: -336_090_000i64,
            k5: 3_330_800_000,
            k6: -16_182_000_000i64,
            k7: 34_627_000_000,
        },
        ElectrodeConfiguration::VOA => Table2Row {
            k1: 95_606,
            k2: -5_154_300i64,
            k3: 111_610_000,
            k4: -1_242_000_000i64,
            k5: 7_512_500_000,
            k6: -23_584_000_000i64,
            k7: 33_696_000_000,
        },
        ElectrodeConfiguration::HOA => Table2Row {
            k1: 0,
            k2: -315_550i64,
            k3: 16_820_000,
            k4: -346_070_000i64,
            k5: 3_412_400_000,
            k6: -15_990_000_000i64,
            k7: 34_629_000_000,
        },
    }
}

/// Executable lookup for [`spec_table_2`].
pub fn table_2(ec: ElectrodeConfiguration) -> (r: Table2Row)
    ensures
        r == spec_table_2(ec),
{
    match ec {
        ElectrodeConfiguration::VCB => Table2Row {
            k1: 0,
            k2: -142_690i64,
            k3: 8_313_700,
            k4: -193_820_000i64,
            k5: 2_236_600_000,
            k6: -12_645_000_000i64,
            k7: 30_226_000_000,
        },
        ElectrodeConfiguration::VCBB => Table2Row {
            k1: 113_800,
            k2: -6_028_700i64,
            k3: 127_580_000,
            k4: -1_377_800_000i64,
            k5: 8_021_700_000,
            k6: -24_066_000_000i64,
            k7: 33_524_000_000,
        },
        ElectrodeConfiguration::HCB => Table2Row {
            k1: 0,
            k2: -309_700i64,
            k3: 16_405_000,
            k4: -336_090_000i64,
            k5: 3_330_800_000,
            k6: -16_182_000_000i64,
            k7: 34_627_000_000,
        },
        ElectrodeConfiguration::VOA => Table2Row {
            k1: 95_606,
            k2: -5_154_300i64,
            k3: 111_610_000,
            k4: -1_242_000_000i64,
            k5: 7_512_500_000,
            k6: -23_584_000_000i64,
            k7: 33_696_000_000,
        },
        ElectrodeConfiguration::HOA => Table2Row {
            k1: 0,
            k2: -315_550i64,
            k3: 16_820_000,
            k4: -346_070_000i64,
            k5: 3_412_400_000,
            k6: -15_990_000_000i64,
            k7: 34_629_000_000,
        },
    }
}

/// Incident-energy coefficients at the 0.6 kV reference band.
pub open spec fn spec_table_3(ec: ElectrodeConfiguration) -> Table3_4_5Row {
    match ec {
        ElectrodeConfiguration::VCB => Table3_4_5Row {
            k1: 753_364_000_000_000,
            k2: 566_000_000_000_000,
            k3: 1_752_636_000_000_000,
            k4: 0,
            k5: 0,
            k6: -4_783_000i64,
            k7: 1_962_000_000,
            k8: -229_000_000_000i64,
            k9: 3_141_000_000_000,
            k10: 1_092_000_000_000_000,
            k11: 0,
            k12: -1_598_000_000_000_000i64,
            k13: 957_000_000_000_000,
        },
        ElectrodeConfiguration::VCBB => Table3_4_5Row {
            k1: 3_068_459_000_000_000,
            k2: 260_000_000_000_000,
            k3: -98_107_000_000_000i64,
            k4: 0,
            k5: 0,
            k6: -5_767_000i64,
            k7: 2_524_000_000,
            k8: -340_000_000_000i64,
            k9: 11_870_000_000_000,
            k10: 1_013_000_000_000_000,
            k11: -60_000_000_000_000i64,
            k12: -1_809_000_000_000_000i64,
            k13: 1_190_000_000_000_000,
        },
        ElectrodeConfiguration::HCB => Table3_4_5Row {
            k1: 4_073_745_000_000_000,
            k2: 344_000_000_000_000,
            k3: -370_259_000_000_000i64,
            k4: 0,
            k5: 0,
            k6: -5_382_000i64,
            k7: 2_316_000_000,
            k8: -302_000_000_000i64,
            k9: 9_100_000_000_000,
            k10: 972_500_000_000_000,
            k11: 0,
            k12: -2_030_000_000_000_000i64,
            k13: 1_036_000_000_000_000,
        },
        ElectrodeConfiguration::VOA => Table3_4_5Row {
            k1: 679_294_000_000_000,
            k2: 746_000_000_000_000,
            k3: 1_222_636_000_000_000,
            k4: 0,
            k5: 0,
            k6: -4_783_000i64,
            k7: 1_962_000_000,
            k8: -229_000_000_000i64,
            k9: 3_141_000_000_000,
            k10: 1_092_000_000_000_000,
            k11: 0,
            k12: -1_598_000_000_000_000i64,
            k13: 997_000_000_000_000,
        },
        ElectrodeConfiguration::HOA => Table3_4_5Row {
            k1: 3_470_417_000_000_000,
            k2: 465_000_000_000_000,
            k3: -261_863_000_000_000i64,
            k4: 0,
            k5: 0,
            k6: -3_895_000i64,
            k7: 1_641_000_000,
            k8: -197_000_000_000i64,
            k9: 2_615_000_000_000,
            k10: 1_100_000_000_000_000,
            k11: 0,
            k12: -1_990_000_000_000_000i64,
            k13: 1_040_000_000_000_000,
        },
    }
}

/// Executable lookup for [`spec_table_3`].
pub fn table_3(ec: ElectrodeConfiguration) -> (r: Table3_4_5Row)
    ensures
        r == spec_table_3(ec),
{
    match ec {
        ElectrodeConfiguration::VCB => Table3_4_5Row {
            k1: 753_364_000_000_000,
            k2: 566_000_000_000_000,
            k3: 1_752_636_000_000_000,
            k4: 0,
            k5: 0,
            k6: -4_783_000i64,
            k7: 1_962_000_000,
            k8: -229_000_000_000i64,
            k9: 3_141_000_000_000,
            k10: 1_092_000_000_000_000,
            k11: 0,
            k12: -1_598_000_000_000_000i64,
            k13: 957_000_000_000_000,
        },
        ElectrodeConfiguration::VCBB => Table3_4_5Row {
            k1: 3_068_459_000_000_000,
            k2: 260_000_000_000_000,
            k3: -98_107_000_000_000i64,
            k4: 0,
            k5: 0,
            k6: -5_767_000i64,
            k7: 2_524_000_000,
            k8: -340_000_000_000i64,
            k9: 11_870_000_000_000,
            k10: 1_013_000_000_000_000,
            k11: -60_000_000_000_000i64,
            k12: -1_809_000_000_000_000i64,
            k13: 1_190_000_000_000_000,
        },
        ElectrodeConfiguration::HCB => Table3_4_5Row {
            k1: 4_073_745_000_000_000,
            k2: 344_000_000_000_000,
            k3: -370_259_000_000_000i64,
            k4: 0,
            k5: 0,
            k6: -5_382_000i64,
            k7: 2_316_000_000,
            k8: -302_000_000_000i64,
            k9: 9_100_000_000_000,
            k10: 972_500_000_000_000,
            k11: 0,
            k12: -2_030_000_000_000_000i64,
            k13: 1_036_000_000_000_000,
        },
        ElectrodeConfiguration::VOA => Table3_4_5Row {
            k1: 679_294_000_000_000,
            k2: 746_000_000_000_000,
            k3: 1_222_636_000_000_000,
            k4: 0,
            k5: 0,
            k6: -4_783_000i64,
            k7: 1_962_000_000,
            k8: -229_000_000_000i64,
            k9: 3_141_000_000_000,
            k10: 1_092_000_000_000_000,
            k11: 0,
            k12: -1_598_000_000_000_000i64,
            k13: 997_000_000_000_000,
        },
        ElectrodeConfiguration::HOA => Table3_4_5Row {
            k1: 3_470_417_000_000_000,
            k2: 465_000_000_000_000,
            k3: -261_863_000_000_000i64,
            k4: 0,
            k5: 0,
            k6: -3_895_000i64,
            k7: 1_641_000_000,
            k8: -197_000_000_000i64,
            k9: 2_615_000_000_000,
            k10: 1_100_000_000_000_000,
            k11: 0,
            k12: -1_990_000_000_000_000i64,
            k13: 1_040_000_000_000_000,
        },
    }
}

/// Incident-energy coefficients at the 2.7 kV reference band.
pub open spec fn spec_table_4(ec: ElectrodeConfiguration) -> Table3_4_5Row {
    match ec {
        ElectrodeConfiguration::VCB => Table3_4_5Row {
            k1: 2_400_210_000_000_000,
            k2: 165_000_000_000_000,
            k3: 354_202_000_000_000,
            k4: -1_557i64,
            k5: 455_600,
            k6: -41_860_000i64,
            k7: 834_600_000,
            k8: 54_820_000_000,
            k9: -3_191_000_000_000i64,
            k10: 972_900_000_000_000,
            k11: 0,
            k12: -1_569_000_000_000_000i64,
            k13: 977_800_000_000_000,
        },
        ElectrodeConfiguration::VCBB => Table3_4_5Row {
            k1: 3_870_592_000_000_000,
            k2: 185_000_000_000_000,
            k3: -736_618_000_000_000i64,
            k4: 0,
            k5: -92_040i64,
            k6: 29_010_000,
            k7: -3_262_000_000i64,
            k8: 156_900_000_000,
            k9: -4_003_000_000_000i64,
            k10: 982_500_000_000_000,
            k11: 0,
            k12: -1_742_000_000_000_000i64,
            k13: 1_090_000_000_000_000,
        },
        ElectrodeConfiguration::HCB => Table3_4_5Row {
            k1: 3_486_391_000_000_000,
            k2: 177_000_000_000_000,
            k3: -193_101_000_000_000i64,
            k4: 0,
            k5: 0,
            k6: 485_900,
            k7: -181_400_000i64,
            k8: -9_128_000_000i64,
            k9: -700_000_000_000i64,
            k10: 988_100_000_000_000,
            k11: 27_000_000_000_000,
            k12: -1_723_000_000_000_000i64,
            k13: 1_055_000_000_000_000,
        },
        ElectrodeConfiguration::VOA => Table3_4_5Row {
            k1: 3_880_724_000_000_000,
            k2: 105_000_000_000_000,
            k3: -1_906_033_000_000_000i64,
            k4: -1_557i64,
            k5: 455_600,
            k6: -41_860_000i64,
            k7: 834_600_000,
            k8: 54_820_000_000,
            k9: -3_191_000_000_000i64,
            k10: 972_900_000_000_000,
            k11: 0,
            k12: -1_515_000_000_000_000i64,
            k13: 1_115_000_000_000_000,
        },
        ElectrodeConfiguration::HOA => Table3_4_5Row {
            k1: 3_616_266_000_000_000,
            k2: 149_000_000_000_000,
            k3: -761_561_000_000_000i64,
            k4: 0,
            k5: 0,
            k6: 785_900,
            k7: -191_400_000i64,
            k8: -9_128_000_000i64,
            k9: -700_000_000_000i64,
            k10: 998_100_000_000_000,
            k11: 0,
            k12: -1_639_000_000_000_000i64,
            k13: 1_078_000_000_000_000,
        },
    }
}

/// Executable lookup for [`spec_table_4`].
pub fn table_4(ec: ElectrodeConfiguration) -> (r: Table3_4_5Row)
    ensures
        r == spec_table_4(ec),
{
    match ec {
        ElectrodeConfiguration::VCB => Table3_4_5Row {
            k1: 2_400_210_000_000_000,
            k2: 165_000_000_000_000,
            k3: 354_202_000_000_000,
            k4: -1_557i64,
            k5: 455_600,
            k6: -41_860_000i64,
            k7: 834_600_000,
            k8: 54_820_000_000,
            k9: -3_191_000_000_000i64,
            k10: 972_900_000_000_000,
            k11: 0,
            k12: -1_569_000_000_000_000i64,
            k13: 977_800_000_000_000,
        },
        ElectrodeConfiguration::VCBB => Table3_4_5Row {
            k1: 3_870_592_000_000_000,
            k2: 185_000_000_000_000,
            k3: -736_618_000_000_000i64,
            k4: 0,
            k5: -92_040i64,
            k6: 29_010_000,
            k7: -3_262_000_000i64,
            k8: 156_900_000_000,
            k9: -4_003_000_000_000i64,
            k10: 982_500_000_000_000,
            k11: 0,
            k12: -1_742_000_000_000_000i64,
            k13: 1_090_000_000_000_000,
        },
        ElectrodeConfiguration::HCB => Table3_4_5Row {
            k1: 3_486_391_000_000_000,
            k2: 177_000_000_000_000,
            k3: -193_101_000_000_000i64,
            k4: 0,
            k5: 0,
            k6: 485_900,
            k7: -181_400_000i64,
            k8: -9_128_000_000i64,
            k9: -700_000_000_000i64,
            k10: 988_100_000_000_000,
            k11: 27_000_000_000_000,
            k12: -1_723_000_000_000_000i64,
            k13: 1_055_000_000_000_000,
        },
        ElectrodeConfiguration::VOA => Table3_4_5Row {
            k1: 3_880_724_000_000_000,
            k2: 105_000_000_000_000,
            k3: -1_906_033_000_000_000i64,
            k4: -1_557i64,
            k5: 455_600,
            k6: -41_860_000i64,
            k7: 834_600_000,
            k8: 54_820_000_000,
            k9: -3_191_000_000_000i64,
            k10: 972_900_000_000_000,
            k11: 0,
            k12: -1_515_000_000_000_000i64,
            k13: 1_115_000_000_000_000,
        },
        ElectrodeConfiguration::HOA => Table3_4_5Row {
            k1: 3_616_266_000_000_000,
            k2: 149_000_000_000_000,
            k3: -761_561_000_000_000i64,
            k4: 0,
            k5: 0,
            k6: 785_900,
            k7: -191_400_000i64,
            k8: -9_128_000_000i64,
            k9: -700_000_000_000i64,
            k10: 998_100_000_000_000,
            k11: 0,
            k12: -1_639_000_000_000_000i64,
            k13: 1_078_000_000_000_000,
        },
    }
}

/// Incident-energy coefficients at the 14.3 kV reference band.
pub open spec fn spec_table_5(ec: ElectrodeConfiguration) -> Table3_4_5Row {
    match ec {
        ElectrodeConfiguration::VCB => Table3_4_5Row {
            k1: 3_825_917_000_000_000,
            k2: 110_000_000_000_000,
            k3: -999_749_000_000_000i64,
            k4: -1_557i64,
            k5: 455_600,
            k6: -41_860_000i64,
            k7: 834_600_000,
            k8: 54_820_000_000,
            k9: -3_191_000_000_000i64,
            k10: 972_900_000_000_000,
            k11: 0,
            k12: -1_568_000_000_000_000i64,
            k13: 990_000_000_000_000,
        },
        ElectrodeConfiguration::VCBB => Table3_4_5Row {
            k1: 3_644_309_000_000_000,
            k2: 215_000_000_000_000,
            k3: -585_522_000_000_000i64,
            k4: 0,
            k5: -92_040i64,
            k6: 29_010_000,
            k7: -3_262_000_000i64,
            k8: 156_900_000_000,
            k9: -4_003_000_000_000i64,
            k10: 982_500_000_000_000,
            k11: 0,
            k12: -1_677_000_000_000_000i64,
            k13: 1_060_000_000_000_000,
        },
        ElectrodeConfiguration::HCB => Table3_4_5Row {
            k1: 3_044_516_000_000_000,
            k2: 125_000_000_000_000,
            k3: 245_106_000_000_000,
            k4: 0,
            k5: -50_430i64,
            k6: 22_330_000,
            k7: -3_046_000_000i64,
            k8: 116_000_000_000,
            k9: -1_145_000_000_000i64,
            k10: 983_900_000_000_000,
            k11: 0,
            k12: -1_655_000_000_000_000i64,
            k13: 1_084_000_000_000_000,
        },
        ElectrodeConfiguration::VOA => Table3_4_5Row {
            k1: 3_405_454_000_000_000,
            k2: 120_000_000_000_000,
            k3: -932_450_000_000_000i64,
            k4: -1_557i64,
            k5: 455_600,
            k6: -41_860_000i64,
            k7: 834_600_000,
            k8: 54_820_000_000,
            k9: -3_191_000_000_000i64,
            k10: 972_900_000_000_000,
            k11: 0,
            k12: -1_534_000_000_000_000i64,
            k13: 979_000_000_000_000,
        },
        ElectrodeConfiguration::HOA => Table3_4_5Row {
            k1: 2_040_490_000_000_000,
            k2: 177_000_000_000_000,
            k3: 1_005_092_000_000_000,
            k4: 0,
            k5: 0,
            k6: 785_900,
            k7: -191_400_000i64,
            k8: -9_128_000_000i64,
            k9: -700_000_000_000i64,
            k10: 998_100_000_000_000,
            k11: -50_000_000_000_000i64,
            k12: -1_633_000_000_000_000i64,
            k13: 1_151_000_000_000_000,
        },
    }
}

/// Executable lookup for [`spec_table_5`].
pub fn table_5(ec: ElectrodeConfiguration) -> (r: Table3_4_5Row)
    ensures
        r == spec_table_5(ec),
{
    match ec {
        ElectrodeConfiguration::VCB => Table3_4_5Row {
            k1: 3_825_917_000_000_000,
            k2: 110_000_000_000_000,
            k3: -999_749_000_000_000i64,
            k4: -1_557i64,
            k5: 455_600,
            k6: -41_860_000i64,
            k7: 834_600_000,
            k8: 54_820_000_000,
            k9: -3_191_000_000_000i64,
            k10: 972_900_000_000_000,
            k11: 0,
            k12: -1_568_000_000_000_000i64,
            k13: 990_000_000_000_000,
        },
        ElectrodeConfiguration::VCBB => Table3_4_5Row {
            k1: 3_644_309_000_000_000,
            k2: 215_000_000_000_000,
            k3: -585_522_000_000_000i64,
            k4: 0,
            k5: -92_040i64,
            k6: 29_010_000,
            k7: -3_262_000_000i64,
            k8: 156_900_000_000,
            k9: -4_003_000_000_000i64,
            k10: 982_500_000_000_000,
            k11: 0,
            k12: -1_677_000_000_000_000i64,
            k13: 1_060_000_000_000_000,
        },
        ElectrodeConfiguration::HCB => Table3_4_5Row {
            k1: 3_044_516_000_000_000,
            k2: 125_000_000_000_000,
            k3: 245_106_000_000_000,
            k4: 0,
            k5: -50_430i64,
            k6: 22_330_000,
            k7: -3_046_000_000i64,
            k8: 116_000_000_000,
            k9: -1_145_000_000_000i64,
            k10: 983_900_000_000_000,
            k11: 0,
            k12: -1_655_000_000_000_000i64,
            k13: 1_084_000_000_000_000,
        },
        ElectrodeConfiguration::VOA => Table3_4_5Row {
            k1: 3_405_454_000_000_000,
            k2: 120_000_000_000_000,
            k3: -932_450_000_000_000i64,
            k4: -1_557i64,
            k5: 455_600,
            k6: -41_860_000i64,
            k7: 834_600_000,
            k8: 54_820_000_000,
            k9: -3_191_000_000_000i64,
            k10: 972_900_000_000_000,
            k11: 0,
            k12: -1_534_000_000_000_000i64,
            k13: 979_000_000_000_000,
        },
        ElectrodeConfiguration::HOA => Table3_4_5Row {
            k1: 2_040_490_000_000_000,
            k2: 177_000_000_000_000,
            k3: 1_005_092_000_000_000,
            k4: 0,
            k5: 0,
            k6: 785_900,
            k7: -191_400_000i64,
            k8: -9_128_000_000i64,
            k9: -700_000_000_000i64,
            k10: 998_100_000_000_000,
            k11: -50_000_000_000_000i64,
            k12: -1_633_000_000_000_000i64,
            k13: 1_151_000_000_000_000,
        },
    }
}

/// Enclosure-size correction coefficients by enclosure type and boxed
/// electrode configuration. Open-air configurations take no correction
/// and have no row.
pub open spec fn spec_table_7(et: EnclosureType, ec: ElectrodeConfiguration) -> Table7Row
    recommends
        crate::common::is_boxed(ec),
{
    match (et, ec) {
        (EnclosureType::Typical, ElectrodeConfiguration::VCB) => Table7Row {
            b1: -3_020i64,
            b2: 344_100,
            b3: 4_325_000,
        },
        (EnclosureType::Typical, ElectrodeConfiguration::VCBB) => Table7Row {
            b1: -2_976i64,
            b2: 320_000,
            b3: 4_790_000,
        },
        (EnclosureType::Typical, ElectrodeConfiguration::HCB) => Table7Row {
            b1: -1_923i64,
            b2: 193_500,
            b3: 6_899_000,
        },
        (EnclosureType::Shallow, ElectrodeConfiguration::VCB) => Table7Row {
            b1: 22_220,
            b2: -255_600i64,
            b3: 6_222_000,
        },
        (EnclosureType::Shallow, ElectrodeConfiguration::VCBB) => Table7Row {
            b1: -27_780i64,
            b2: 1_194_000,
            b3: -2_778_000i64,
        },
        (EnclosureType::Shallow, ElectrodeConfiguration::HCB) => Table7Row {
            b1: -5_556i64,
            b2: 372_200,
            b3: 4_778_000,
        },
        _ => Table7Row { b1: 0, b2: 0, b3: 0 },
    }
}

/// Executable lookup for [`spec_table_7`]; callers must stay on the
/// boxed configurations, as the model defines no row elsewhere.
pub fn table_7(et: EnclosureType, ec: ElectrodeConfiguration) -> (r: Table7Row)
    requires
        crate::common::is_boxed(ec),
    ensures
        r == spec_table_7(et, ec),
{
    match (et, ec) {
        (EnclosureType::Typical, ElectrodeConfiguration::VCB) => Table7Row {
            b1: -3_020i64,
            b2: 344_100,
            b3: 4_325_000,
        },
        (EnclosureType::Typical, ElectrodeConfiguration::VCBB) => Table7Row {
            b1: -2_976i64,
            b2: 320_000,
            b3: 4_790_000,
        },
        (EnclosureType::Typical, ElectrodeConfiguration::HCB) => Table7Row {
            b1: -1_923i64,
            b2: 193_500,
            b3: 6_899_000,
        },
        (EnclosureType::Shallow, ElectrodeConfiguration::VCB) => Table7Row {
            b1: 22_220,
            b2: -255_600i64,
            b3: 6_222_000,
        },
        (EnclosureType::Shallow, ElectrodeConfiguration::VCBB) => Table7Row {
            b1: -27_780i64,
            b2: 1_194_000,
            b3: -2_778_000i64,
        },
        (EnclosureType::Shallow, ElectrodeConfiguration::HCB) => Table7Row {
            b1: -5_556i64,
            b2: 372_200,
            b3: 4_778_000,
        },
        _ => Table7Row { b1: 0, b2: 0, b3: 0 },
    }
}

} // verus!
