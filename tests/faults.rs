use l9961::faults::{CellFaults, PackFaults};
use l9961::measurement::Measurement;
use l9961::registers::{DiagCurr, DiagOvOtUt, DiagUv};

#[test]
fn over_voltage_diagnostics_map_to_cell_and_pack_flags() {
    let mut m = Measurement::default();
    m.apply_diag_ov_ot_ut(
        DiagOvOtUt(
            DiagOvOtUt::CELL2_OV
                | DiagOvOtUt::CELL3_SEVERE_OV
                | DiagOvOtUt::VB_SUM_CHECK_FAIL
                | DiagOvOtUt::NTC_SEVERE_OT
                | DiagOvOtUt::DIE_OT
                | DiagOvOtUt::PACK_OV,
        ),
        5,
    );
    assert_eq!(m.cell_1.faults.0, 0);
    assert_eq!(m.cell_2.faults.0, CellFaults::OVER_VOLTAGE);
    assert_eq!(m.cell_3.faults.0, CellFaults::EXTREME_OVER_VOLTAGE);
    assert_eq!(
        m.pack_faults.0,
        PackFaults::CELL_VOLTAGE_SUM_VB_MISMATCH
            | PackFaults::NTC_SEVERE_OVER_TEMP
            | PackFaults::DIE_OVER_TEMP
            | PackFaults::OVER_VOLTAGE
    );
}

#[test]
fn under_voltage_diagnostics_map_to_cell_and_pack_flags() {
    let mut m = Measurement::default();
    m.apply_diag_uv(
        DiagUv(DiagUv::CELL1_UV | DiagUv::BAL1_UV | DiagUv::V_SEVERE_CELL5_UV | DiagUv::VB_UV),
        5,
    );
    assert_eq!(
        m.cell_1.faults.0,
        CellFaults::UNDER_VOLTAGE | CellFaults::UNDER_VOLTAGE_FOR_BALANCING
    );
    assert_eq!(m.cell_5.faults.0, CellFaults::EXTREME_UNDER_VOLTAGE);
    assert_eq!(m.pack_faults.0, PackFaults::UNDER_VOLTAGE);
}

#[test]
fn cells_beyond_the_cell_count_get_no_flags() {
    let mut m = Measurement::default();
    m.apply_diag_ov_ot_ut(DiagOvOtUt::all(), 3);
    assert_eq!(m.cell_3.faults.0, CellFaults::OVER_VOLTAGE | CellFaults::EXTREME_OVER_VOLTAGE);
    assert_eq!(m.cell_4.faults.0, 0);
    assert_eq!(m.cell_5.faults.0, 0);
}

#[test]
fn current_diagnostics_map_to_their_own_flags() {
    let mut m = Measurement::default();
    m.apply_diag_curr(DiagCurr(DiagCurr::SC_DCHG | DiagCurr::PERSIST_OVC_CHG | DiagCurr::FUSE_EXT));
    assert_eq!(
        m.pack_faults.0,
        PackFaults::SHORT_CIRCUIT_DISCHARGE
            | PackFaults::PERSISTENT_OVER_CURRENT_IN_CHARGE
            | PackFaults::FUSE_EXTERNAL
    );
    let mut all = Measurement::default();
    all.apply_diag_curr(DiagCurr::all());
    assert_eq!(all.pack_faults.0, 0xFF80);
    assert!(all.pack_faults.contains(PackFaults::COULOMB_COUNTER_SATURATED));
}

#[test]
fn fault_decoding_order_does_not_matter() {
    let d1 = DiagOvOtUt(0x8F31);
    let d2 = DiagUv(0x5A5A);
    let d3 = DiagCurr(0x0123);
    let mut a = Measurement::default();
    a.apply_diag_ov_ot_ut(d1, 5);
    a.apply_diag_uv(d2, 5);
    a.apply_diag_curr(d3);
    let mut b = Measurement::default();
    b.apply_diag_curr(d3);
    b.apply_diag_uv(d2, 5);
    b.apply_diag_ov_ot_ut(d1, 5);
    assert_eq!(a, b);
    let mut only1 = Measurement::default();
    only1.apply_diag_ov_ot_ut(d1, 5);
    let mut only2 = Measurement::default();
    only2.apply_diag_uv(d2, 5);
    assert_eq!(a.cell_1.faults.0, only1.cell_1.faults.0 | only2.cell_1.faults.0);
    assert_eq!(a.cell_4.faults.0, only1.cell_4.faults.0 | only2.cell_4.faults.0);
}

#[test]
fn decoding_keeps_flags_already_set() {
    let mut m = Measurement::default();
    m.cell_2.faults = CellFaults(CellFaults::UNDER_VOLTAGE);
    m.pack_faults = PackFaults(PackFaults::FAULTN_EXTERNAL);
    m.apply_diag_ov_ot_ut(DiagOvOtUt(DiagOvOtUt::CELL2_OV), 3);
    m.apply_diag_uv(DiagUv(0), 3);
    assert_eq!(m.cell_2.faults.0, CellFaults::UNDER_VOLTAGE | CellFaults::OVER_VOLTAGE);
    assert!(m.pack_faults.contains(PackFaults::FAULTN_EXTERNAL));
    assert!(m.cell_2.faults.contains(CellFaults::OVER_VOLTAGE));
}

#[test]
fn measurement_block_decodes_each_value() {
    let mut m = Measurement::default();
    let block = [3439u16, 3440, 0x5000 | 3441, 100, 100, 10300, 3442, 4094, 1000];
    m.apply_measurement_block(&block, 3);
    assert_eq!(m.cell_1.voltage_mv, 4195);
    assert_eq!(m.cell_3.voltage_mv, 4198);
    assert_eq!(m.cell_4.voltage_mv, 0);
    assert_eq!(m.cell_sum_mv, 12566);
    assert_eq!(m.vbat_mv, 20996);
    assert_eq!(m.ntc_mv, 3299);
    assert_eq!(m.die_temp, 147);
}
