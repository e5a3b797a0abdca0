use l9961::conversions::{
    cell_voltage_measurement_code_from_mv, cell_voltage_measurement_mv_from_code,
    cell_voltage_threshold_code_from_mv, cell_voltage_threshold_mv_from_code,
    current_measurement_ma_from_code, ntc_voltage_code_from_mv, ntc_voltage_mv_from_code,
    pack_voltage_measurement_code_from_mv, pack_voltage_measurement_mv_from_code,
    pack_voltage_threshold_code_from_mv, pack_voltage_threshold_mv_from_code,
    round_trip_cell_voltage_measurement, round_trip_cell_voltage_threshold, round_trip_ntc_voltage,
    round_trip_pack_voltage_measurement, round_trip_pack_voltage_threshold,
};
use l9961::registers::{DieTemp, NtcGpio};

#[test]
fn cell_threshold_round_trip_of_default_is_fixed_point() {
    let code = cell_voltage_threshold_code_from_mv(4196);
    assert_eq!(code, 215);
    let applied = cell_voltage_threshold_mv_from_code(code);
    assert_eq!(applied, 4196);
    assert!(applied <= 4196);
    assert_eq!(cell_voltage_threshold_code_from_mv(applied), code);
    assert_eq!(round_trip_cell_voltage_threshold(4196), 4196);
    assert_eq!(cell_voltage_threshold_mv_from_code(214), 4177);
    assert_eq!(cell_voltage_threshold_code_from_mv(4177), 214);
    assert_eq!(round_trip_cell_voltage_threshold(4190), 4177);
    assert_eq!(round_trip_cell_voltage_threshold(applied), applied);
}

#[test]
fn cell_threshold_round_trip_boundaries() {
    assert_eq!(round_trip_cell_voltage_threshold(0), 0);
    assert_eq!(round_trip_cell_voltage_threshold(1), 0);
    assert_eq!(cell_voltage_threshold_code_from_mv(65535), 255);
    assert_eq!(cell_voltage_threshold_mv_from_code(255), 4977);
    assert_eq!(round_trip_cell_voltage_threshold(65535), 4977);
    assert_eq!(round_trip_cell_voltage_threshold(4978), 4977);
    assert_eq!(round_trip_cell_voltage_threshold(4977), 4977);
    assert_eq!(round_trip_cell_voltage_threshold(4959), 4958);
    assert_eq!(round_trip_cell_voltage_threshold(19), 19);
}

#[test]
fn every_round_trip_is_idempotent_and_never_raises() {
    let mut mv: u32 = 0;
    while mv <= 65535 {
        let v = mv as u16;
        let pairs: [fn(u16) -> u16; 5] = [
            round_trip_cell_voltage_threshold,
            round_trip_cell_voltage_measurement,
            round_trip_pack_voltage_threshold,
            round_trip_pack_voltage_measurement,
            round_trip_ntc_voltage,
        ];
        for f in pairs.iter() {
            let once = f(v);
            assert!(once <= v);
            assert_eq!(f(once), once);
        }
        mv += 7;
    }
}

#[test]
fn cell_measurement_conversions() {
    assert_eq!(cell_voltage_measurement_code_from_mv(4196), 3440);
    assert_eq!(cell_voltage_measurement_mv_from_code(3439), 4195);
    assert_eq!(cell_voltage_measurement_mv_from_code(3440), 4196);
    assert_eq!(round_trip_cell_voltage_measurement(4196), 4196);
    assert_eq!(cell_voltage_measurement_mv_from_code(4095), 4995);
    assert_eq!(cell_voltage_measurement_code_from_mv(65535), 4095);
    assert_eq!(cell_voltage_measurement_mv_from_code(0), 0);
}

#[test]
fn pack_threshold_conversions() {
    assert_eq!(pack_voltage_threshold_code_from_mv(21000), 215);
    assert_eq!(pack_voltage_threshold_mv_from_code(215), 20984);
    assert_eq!(pack_voltage_threshold_code_from_mv(15000), 153);
    assert_eq!(pack_voltage_threshold_mv_from_code(153), 14932);
    assert_eq!(round_trip_pack_voltage_threshold(21000), 20984);
    assert_eq!(pack_voltage_threshold_code_from_mv(65535), 255);
}

#[test]
fn pack_measurement_conversions() {
    assert_eq!(pack_voltage_measurement_code_from_mv(21000), 3442);
    assert_eq!(pack_voltage_measurement_mv_from_code(3442), 20996);
    assert_eq!(round_trip_pack_voltage_measurement(21000), 20996);
    assert_eq!(pack_voltage_measurement_mv_from_code(0x7FFF), 65535);
}

#[test]
fn ntc_conversions() {
    assert_eq!(ntc_voltage_code_from_mv(3300), 4095);
    assert_eq!(ntc_voltage_mv_from_code(4094), 3299);
    assert_eq!(ntc_voltage_mv_from_code(4095), 3300);
    assert_eq!(ntc_voltage_mv_from_code(1), 0);
    assert_eq!(ntc_voltage_code_from_mv(65535), 4095);
    assert_eq!(round_trip_ntc_voltage(3300), 3300);
    assert_eq!(NtcGpio(0xF000 | 4094).get_ntc_meas_mv(), 3299);
    assert_eq!(NtcGpio(1).get_ntc_meas_mv(), 0);
    assert_eq!(NtcGpio(0xFFFF).get_ntc_meas_mv(), 3300);
}

#[test]
fn current_conversion() {
    assert_eq!(current_measurement_ma_from_code(0), 0);
    assert_eq!(current_measurement_ma_from_code(1000), 915);
    assert_eq!(current_measurement_ma_from_code(12345), 11301);
    assert_eq!(current_measurement_ma_from_code(u32::MAX), 65535);
}

#[test]
fn die_temperature_conversion() {
    assert_eq!(DieTemp(0).get_die_temp_kelvin(), 343);
    assert_eq!(DieTemp(1000).get_die_temp_kelvin(), 147);
    assert_eq!(DieTemp(0xF000 | 1000).get_die_temp(), 1000);
    assert_eq!(DieTemp(2000).get_die_temp_kelvin(), 0);
}
