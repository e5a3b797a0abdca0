//! # Conversion functions for the L9961
//! The L9961 uses coded values for many of its registers.
//! These functions convert between the coded values and the actual values in mV, mA, etc.
//!
//! A code is read back as the whole millivolts of its exact voltage, rounded down. A value is
//! converted to the largest code (at most the largest code of the field) whose millivolts do
//! not exceed the value. With this pair, converting a value to a code and back never gives
//! more than the value, and the result converts back to the same code.
use vstd::prelude::*;

verus! {

/// Resolution of a cell voltage threshold code, in microvolts.
pub const CELL_THRESHOLD_STEP_UV: u32 = 19520;

/// Resolution of a cell voltage measurement code, in microvolts.
pub const CELL_MEASUREMENT_STEP_UV: u32 = 1220;

/// Resolution of a pack voltage threshold code, in microvolts.
pub const PACK_THRESHOLD_STEP_UV: u32 = 97600;

/// Resolution of a pack voltage measurement code, in microvolts.
pub const PACK_MEASUREMENT_STEP_UV: u32 = 6100;

/// Resolution of an NTC voltage code, in microvolts.
pub const NTC_STEP_UV: u32 = 806;

/// Largest code of a 12-bit field.
pub const MAX_CODE_12_BIT: u16 = 0x0FFF;

/// Largest code of a 15-bit field.
pub const MAX_CODE_15_BIT: u16 = 0x7FFF;

const CURRENT_RESOLUTION_VAL: u64 = 9155;

const CURRENT_RESISTOR_SHUNT_VALUE_MOHM: u64 = 10;

/// The code for `mv` millivolts at a resolution of `step_uv` microvolts: the largest code
/// whose whole millivolts do not exceed `mv`, at most `max_code`.
pub open spec fn code_of(mv: int, step_uv: int, max_code: int) -> int {
    if (mv * 1000 + 999) / step_uv > max_code {
        max_code
    } else {
        (mv * 1000 + 999) / step_uv
    }
}

/// The whole millivolts of `code` steps of `step_uv` microvolts, rounded down, at most
/// `u16::MAX`.
pub open spec fn mv_of(code: int, step_uv: int) -> int {
    if code * step_uv / 1000 > 0xFFFF {
        0xFFFF
    } else {
        code * step_uv / 1000
    }
}

/// The value that the device applies when asked for `mv`: the value of its code.
pub open spec fn quantized(mv: int, step_uv: int, max_code: int) -> int {
    mv_of(code_of(mv, step_uv, max_code), step_uv)
}

/// Current in mA of a combined current code, at most `u16::MAX`.
pub open spec fn current_ma_of(code: int) -> int {
    if code * 9155 / 10000 > 0xFFFF {
        0xFFFF
    } else {
        code * 9155 / 10000
    }
}

/// Convert a cell voltage threshold register code to mV
pub fn cell_voltage_threshold_mv_from_code(code: u8) -> (r: u16)
    ensures
        r == mv_of(code as int, CELL_THRESHOLD_STEP_UV as int),
{
    ((code as u32 * CELL_THRESHOLD_STEP_UV) / 1000) as u16
}

/// Convert a cell voltage in mV to a register code
pub fn cell_voltage_threshold_code_from_mv(voltage_mv: u16) -> (r: u8)
    ensures
        r == code_of(voltage_mv as int, CELL_THRESHOLD_STEP_UV as int, 255),
{
    let code = (voltage_mv as u32 * 1000 + 999) / CELL_THRESHOLD_STEP_UV;
    if code > 255 {
        255
    } else {
        code as u8
    }
}

/// Convert from mv to code and back to get the actual value which will be set given a target mv value
pub fn round_trip_cell_voltage_threshold(voltage_mv: u16) -> (r: u16)
    ensures
        r == quantized(voltage_mv as int, CELL_THRESHOLD_STEP_UV as int, 255),
{
    cell_voltage_threshold_mv_from_code(cell_voltage_threshold_code_from_mv(voltage_mv))
}

/// Convert a cell voltage measurement register code to mV
pub fn cell_voltage_measurement_mv_from_code(code: u16) -> (r: u16)
    ensures
        r == mv_of(code as int, CELL_MEASUREMENT_STEP_UV as int),
{
    let mv = (code as u32 * CELL_MEASUREMENT_STEP_UV) / 1000;
    if mv > 0xFFFF {
        0xFFFF
    } else {
        mv as u16
    }
}

/// Convert a cell voltage in mV to a register code
pub fn cell_voltage_measurement_code_from_mv(voltage_mv: u16) -> (r: u16)
    ensures
        r == code_of(voltage_mv as int, CELL_MEASUREMENT_STEP_UV as int, MAX_CODE_12_BIT as int),
{
    let code = (voltage_mv as u32 * 1000 + 999) / CELL_MEASUREMENT_STEP_UV;
    if code > MAX_CODE_12_BIT as u32 {
        MAX_CODE_12_BIT
    } else {
        code as u16
    }
}

/// Convert from mv to code and back to get the actual value which will be set given a target mv value
pub fn round_trip_cell_voltage_measurement(voltage_mv: u16) -> (r: u16)
    ensures
        r == quantized(
            voltage_mv as int,
            CELL_MEASUREMENT_STEP_UV as int,
            MAX_CODE_12_BIT as int,
        ),
{
    cell_voltage_measurement_mv_from_code(cell_voltage_measurement_code_from_mv(voltage_mv))
}

/// Convert a pack voltage threshold register code to mV
pub fn pack_voltage_threshold_mv_from_code(code: u8) -> (r: u16)
    ensures
        r == mv_of(code as int, PACK_THRESHOLD_STEP_UV as int),
{
    ((code as u32 * PACK_THRESHOLD_STEP_UV) / 1000) as u16
}

/// Convert a pack voltage in mV to a register code
pub fn pack_voltage_threshold_code_from_mv(voltage_mv: u16) -> (r: u8)
    ensures
        r == code_of(voltage_mv as int, PACK_THRESHOLD_STEP_UV as int, 255),
{
    let code = (voltage_mv as u32 * 1000 + 999) / PACK_THRESHOLD_STEP_UV;
    if code > 255 {
        255
    } else {
        code as u8
    }
}

/// Convert from pack mv to code and back to get the actual value which will be set given a target mv value
pub fn round_trip_pack_voltage_threshold(voltage_mv: u16) -> (r: u16)
    ensures
        r == quantized(voltage_mv as int, PACK_THRESHOLD_STEP_UV as int, 255),
{
    pack_voltage_threshold_mv_from_code(pack_voltage_threshold_code_from_mv(voltage_mv))
}

/// Convert a pack voltage measurement register code to mV
pub fn pack_voltage_measurement_mv_from_code(code: u16) -> (r: u16)
    ensures
        r == mv_of(code as int, PACK_MEASUREMENT_STEP_UV as int),
{
    let mv = (code as u32 * PACK_MEASUREMENT_STEP_UV) / 1000;
    if mv > 0xFFFF {
        0xFFFF
    } else {
        mv as u16
    }
}

/// Convert a pack voltage measurement in mV to a register code
pub fn pack_voltage_measurement_code_from_mv(voltage_mv: u16) -> (r: u16)
    ensures
        r == code_of(voltage_mv as int, PACK_MEASUREMENT_STEP_UV as int, MAX_CODE_15_BIT as int),
{
    let code = (voltage_mv as u32 * 1000 + 999) / PACK_MEASUREMENT_STEP_UV;
    if code > MAX_CODE_15_BIT as u32 {
        MAX_CODE_15_BIT
    } else {
        code as u16
    }
}

/// Convert from pack mv to code and back to get the actual value which will be set given a target mv value
pub fn round_trip_pack_voltage_measurement(voltage_mv: u16) -> (r: u16)
    ensures
        r == quantized(
            voltage_mv as int,
            PACK_MEASUREMENT_STEP_UV as int,
            MAX_CODE_15_BIT as int,
        ),
{
    pack_voltage_measurement_mv_from_code(pack_voltage_measurement_code_from_mv(voltage_mv))
}

/// Convert an ntc register code to mV
pub fn ntc_voltage_mv_from_code(code: u16) -> (r: u16)
    ensures
        r == mv_of(code as int, NTC_STEP_UV as int),
{
    ((code as u32 * NTC_STEP_UV) / 1000) as u16
}

/// Convert an ntc voltage in mV to a register code
pub fn ntc_voltage_code_from_mv(voltage_mv: u16) -> (r: u16)
    ensures
        r == code_of(voltage_mv as int, NTC_STEP_UV as int, MAX_CODE_12_BIT as int),
{
    let code = (voltage_mv as u32 * 1000 + 999) / NTC_STEP_UV;
    if code > MAX_CODE_12_BIT as u32 {
        MAX_CODE_12_BIT
    } else {
        code as u16
    }
}

/// Convert from ntc mv to code and back to get the actual value which will be set given a target mv value
pub fn round_trip_ntc_voltage(voltage_mv: u16) -> (r: u16)
    ensures
        r == quantized(voltage_mv as int, NTC_STEP_UV as int, MAX_CODE_12_BIT as int),
{
    ntc_voltage_mv_from_code(ntc_voltage_code_from_mv(voltage_mv))
}

/// Convert a current measurement from a combined register code to mA
pub fn current_measurement_ma_from_code(code: u32) -> (r: u16)
    ensures
        r == current_ma_of(code as int),
{
    let ma = (code as u64 * CURRENT_RESOLUTION_VAL) / CURRENT_RESISTOR_SHUNT_VALUE_MOHM / 1000;
    assert(ma == code as int * 9155 / 10000) by {
        vstd::arithmetic::div_mod::lemma_div_denominator(code as int * 9155, 10, 1000);
    }
    if ma > 0xFFFF {
        0xFFFF
    } else {
        ma as u16
    }
}

/// Quantizing a quantized value changes nothing, and quantizing never raises a value.
proof fn lemma_quantized_fixed_point(mv: int, step_uv: int, max_code: int)
    requires
        0 <= mv <= 0xFFFF,
        step_uv > 0,
        max_code >= 0,
    ensures
        quantized(mv, step_uv, max_code) <= mv,
        code_of(quantized(mv, step_uv, max_code), step_uv, max_code) == code_of(
            mv,
            step_uv,
            max_code,
        ),
{
    let x = mv * 1000 + 999;
    let c0 = x / step_uv;
    let c = code_of(mv, step_uv, max_code);
    vstd::arithmetic::div_mod::lemma_fundamental_div_mod(x, step_uv);
    vstd::arithmetic::div_mod::lemma_mod_pos_bound(x, step_uv);
    assert(c0 >= 0) by {
        vstd::arithmetic::div_mod::lemma_div_pos_is_pos(x, step_uv);
    }
    assert(0 <= c <= c0);
    assert(c * step_uv <= c0 * step_uv) by (nonlinear_arith)
        requires
            c <= c0,
            step_uv > 0,
    ;
    assert(c0 * step_uv <= x) by (nonlinear_arith)
        requires
            x == step_uv * c0 + x % step_uv,
            x % step_uv >= 0,
    ;
    assert(c * step_uv >= 0) by (nonlinear_arith)
        requires
            c >= 0,
            step_uv > 0,
    ;
    let y = c * step_uv / 1000;
    vstd::arithmetic::div_mod::lemma_fundamental_div_mod(c * step_uv, 1000);
    vstd::arithmetic::div_mod::lemma_mod_pos_bound(c * step_uv, 1000);
    assert(0 <= y <= mv);
    assert(mv_of(c, step_uv) == y);
    assert(c * step_uv <= y * 1000 + 999);
    let c1 = (y * 1000 + 999) / step_uv;
    assert(c1 >= c) by {
        vstd::arithmetic::div_mod::lemma_div_is_ordered(c * step_uv, y * 1000 + 999, step_uv);
        vstd::arithmetic::div_mod::lemma_div_by_multiple(c, step_uv);
    }
    assert(c1 <= c0) by {
        vstd::arithmetic::div_mod::lemma_div_is_ordered(y * 1000 + 999, x, step_uv);
    }
}

/// For every conversion pair, the value that the device applies for a requested value is
/// no more than the request, and it is a fixed point: converting it to a code and back
/// gives it again, through the same code.
pub proof fn lemma_round_trip_is_idempotent(voltage_mv: u16)
    ensures
        ({
            let v = voltage_mv as int;
            let s = CELL_THRESHOLD_STEP_UV as int;
            quantized(v, s, 255) <= v && quantized(quantized(v, s, 255), s, 255) == quantized(
                v,
                s,
                255,
            ) && code_of(quantized(v, s, 255), s, 255) == code_of(v, s, 255)
        }),
        ({
            let v = voltage_mv as int;
            let s = CELL_MEASUREMENT_STEP_UV as int;
            let m = MAX_CODE_12_BIT as int;
            quantized(v, s, m) <= v && quantized(quantized(v, s, m), s, m) == quantized(v, s, m)
                && code_of(quantized(v, s, m), s, m) == code_of(v, s, m)
        }),
        ({
            let v = voltage_mv as int;
            let s = PACK_THRESHOLD_STEP_UV as int;
            quantized(v, s, 255) <= v && quantized(quantized(v, s, 255), s, 255) == quantized(
                v,
                s,
                255,
            ) && code_of(quantized(v, s, 255), s, 255) == code_of(v, s, 255)
        }),
        ({
            let v = voltage_mv as int;
            let s = PACK_MEASUREMENT_STEP_UV as int;
            let m = MAX_CODE_15_BIT as int;
            quantized(v, s, m) <= v && quantized(quantized(v, s, m), s, m) == quantized(v, s, m)
                && code_of(quantized(v, s, m), s, m) == code_of(v, s, m)
        }),
        ({
            let v = voltage_mv as int;
            let s = NTC_STEP_UV as int;
            let m = MAX_CODE_12_BIT as int;
            quantized(v, s, m) <= v && quantized(quantized(v, s, m), s, m) == quantized(v, s, m)
                && code_of(quantized(v, s, m), s, m) == code_of(v, s, m)
        }),
{
    let v = voltage_mv as int;
    lemma_quantized_fixed_point(v, CELL_THRESHOLD_STEP_UV as int, 255);
    lemma_quantized_fixed_point(v, CELL_MEASUREMENT_STEP_UV as int, MAX_CODE_12_BIT as int);
    lemma_quantized_fixed_point(v, PACK_THRESHOLD_STEP_UV as int, 255);
    lemma_quantized_fixed_point(v, PACK_MEASUREMENT_STEP_UV as int, MAX_CODE_15_BIT as int);
    lemma_quantized_fixed_point(v, NTC_STEP_UV as int, MAX_CODE_12_BIT as int);
}

} // verus!
