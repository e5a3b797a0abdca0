//! The fault module defines the faults returned by the L9961 driver when making measurements.
//! The fault bit layout is defined here once; the diagnostic registers are mapped onto it
//! by `Measurement::apply_diag_ov_ot_ut`, `Measurement::apply_diag_uv` and
//! `Measurement::apply_diag_curr`, which only ever add flags.
use crate::bitfield::{bit, get_bit};
use crate::registers::DiagCurr;
use vstd::prelude::*;

verus! {

/// Cell fault flags
#[derive(Clone, Copy, Debug, PartialEq, Eq, Structural)]
pub struct CellFaults(pub u8);

impl CellFaults {
    /// Cell is over its configured over-voltage threshold
    pub const OVER_VOLTAGE: u8 = 0x01;

    /// Cell is over its configured severe over-voltage threshold
    pub const EXTREME_OVER_VOLTAGE: u8 = 0x02;

    /// Cell is under its configured under-voltage threshold
    pub const UNDER_VOLTAGE: u8 = 0x04;

    /// Cell is below its configured under-voltage threshold for balancing
    pub const UNDER_VOLTAGE_FOR_BALANCING: u8 = 0x08;

    /// Cell is under its configured severe under-voltage threshold
    pub const EXTREME_UNDER_VOLTAGE: u8 = 0x10;

    /// No fault
    pub fn empty() -> (r: Self)
        ensures
            r.0 == 0,
    {
        Self(0)
    }

    /// Whether every flag of `flags` is set.
    pub fn contains(&self, flags: u8) -> (r: bool)
        ensures
            r == (self.0 & flags == flags),
    {
        self.0 & flags == flags
    }
}

/// Pack and BMS fault flags
#[derive(Clone, Copy, Debug, PartialEq, Eq, Structural)]
pub struct PackFaults(pub u16);

impl PackFaults {
    /// Pack is over its configured over-voltage threshold
    pub const OVER_VOLTAGE: u16 = 0x0001;

    /// Pack is under its configured under-voltage threshold
    pub const UNDER_VOLTAGE: u16 = 0x0002;

    /// Pack is over its configured over-temperature threshold
    pub const NTC_OVER_TEMP: u16 = 0x0004;

    /// Pack is under its configured under-temperature threshold
    pub const NTC_UNDER_TEMP: u16 = 0x0008;

    /// Pack is over its configured severe over-temperature threshold
    pub const NTC_SEVERE_OVER_TEMP: u16 = 0x0010;

    /// BMS Die over-temperature
    pub const DIE_OVER_TEMP: u16 = 0x0020;

    /// Mismatch between cell measurements and pack voltage
    pub const CELL_VOLTAGE_SUM_VB_MISMATCH: u16 = 0x0040;

    /// Coulomb counter saturation
    pub const COULOMB_COUNTER_SATURATED: u16 = 0x0080;

    /// Over current during charge
    pub const OVER_CURRENT_CHARGE: u16 = 0x0100;

    /// Persistent over-current during charge
    pub const PERSISTENT_OVER_CURRENT_IN_CHARGE: u16 = 0x0200;

    /// Over current during discharge
    pub const OVER_CURRENT_DISCHARGE: u16 = 0x0400;

    /// Persistent over-current during discharge
    pub const PERSISTENT_OVER_CURRENT_IN_DISCHARGE: u16 = 0x0800;

    /// Short circuit during discharge
    pub const SHORT_CIRCUIT_DISCHARGE: u16 = 0x1000;

    /// Persistent short circuit during discharge
    pub const PERSISTENT_SHORT_CIRCUIT_DISCHARGE: u16 = 0x2000;

    /// Fuse External fault
    pub const FUSE_EXTERNAL: u16 = 0x4000;

    /// FaultN External fault
    pub const FAULTN_EXTERNAL: u16 = 0x8000;

    /// No fault
    pub fn empty() -> (r: Self)
        ensures
            r.0 == 0,
    {
        Self(0)
    }

    /// Whether every flag of `flags` is set.
    pub fn contains(&self, flags: u16) -> (r: bool)
        ensures
            r == (self.0 & flags == flags),
    {
        self.0 & flags == flags
    }
}

/// `flags` where `cond` holds, else no flag.
pub open spec fn cell_flag_if(cond: bool, flags: u8) -> u8 {
    if cond {
        flags
    } else {
        0
    }
}

/// `flags` where `cond` holds, else no flag.
pub open spec fn pack_flag_if(cond: bool, flags: u16) -> u16 {
    if cond {
        flags
    } else {
        0
    }
}

/// The flags of cell `cell` (1 to 5) in DIAG_OV_OT_UT: over-voltage at bit `cell - 1`,
/// severe over-voltage at bit `cell + 5`; none for a cell beyond `cell_count`.
pub open spec fn ov_ot_ut_cell_flags(diag: u16, cell: u16, cell_count: u8) -> u8 {
    if cell > cell_count {
        0
    } else {
        cell_flag_if(bit(diag, (cell - 1) as u16), CellFaults::OVER_VOLTAGE) | cell_flag_if(
            bit(diag, (cell + 5) as u16),
            CellFaults::EXTREME_OVER_VOLTAGE,
        )
    }
}

/// The pack flags in DIAG_OV_OT_UT.
pub open spec fn ov_ot_ut_pack_flags(diag: u16) -> u16 {
    pack_flag_if(bit(diag, 5), PackFaults::OVER_VOLTAGE) | pack_flag_if(
        bit(diag, 11),
        PackFaults::CELL_VOLTAGE_SUM_VB_MISMATCH,
    ) | pack_flag_if(bit(diag, 12), PackFaults::NTC_OVER_TEMP) | pack_flag_if(
        bit(diag, 13),
        PackFaults::NTC_SEVERE_OVER_TEMP,
    ) | pack_flag_if(bit(diag, 14), PackFaults::NTC_UNDER_TEMP) | pack_flag_if(
        bit(diag, 15),
        PackFaults::DIE_OVER_TEMP,
    )
}

/// The flags of cell `cell` (1 to 5) in DIAG_UV: under-voltage at bit `cell - 1`,
/// under-voltage for balancing at bit `cell + 4`, severe under-voltage at bit `cell + 10`;
/// none for a cell beyond `cell_count`.
pub open spec fn uv_cell_flags(diag: u16, cell: u16, cell_count: u8) -> u8 {
    if cell > cell_count {
        0
    } else {
        cell_flag_if(bit(diag, (cell - 1) as u16), CellFaults::UNDER_VOLTAGE) | cell_flag_if(
            bit(diag, (cell + 4) as u16),
            CellFaults::UNDER_VOLTAGE_FOR_BALANCING,
        ) | cell_flag_if(bit(diag, (cell + 10) as u16), CellFaults::EXTREME_UNDER_VOLTAGE)
    }
}

/// The pack flags in DIAG_UV.
pub open spec fn uv_pack_flags(diag: u16) -> u16 {
    pack_flag_if(bit(diag, 10), PackFaults::UNDER_VOLTAGE)
}

/// The pack flags in DIAG_CURR.
pub open spec fn curr_pack_flags(diag: u16) -> u16 {
    pack_flag_if(bit(diag, 0), PackFaults::COULOMB_COUNTER_SATURATED) | pack_flag_if(
        bit(diag, 1),
        PackFaults::OVER_CURRENT_CHARGE,
    ) | pack_flag_if(bit(diag, 2), PackFaults::OVER_CURRENT_DISCHARGE) | pack_flag_if(
        bit(diag, 3),
        PackFaults::PERSISTENT_OVER_CURRENT_IN_CHARGE,
    ) | pack_flag_if(bit(diag, 4), PackFaults::PERSISTENT_OVER_CURRENT_IN_DISCHARGE)
        | pack_flag_if(bit(diag, 5), PackFaults::SHORT_CIRCUIT_DISCHARGE) | pack_flag_if(
        bit(diag, 6),
        PackFaults::PERSISTENT_SHORT_CIRCUIT_DISCHARGE,
    ) | pack_flag_if(bit(diag, 7), PackFaults::FUSE_EXTERNAL) | pack_flag_if(
        bit(diag, 8),
        PackFaults::FAULTN_EXTERNAL,
    )
}

pub(crate) fn cell_flag(cond: bool, flags: u8) -> (r: u8)
    ensures
        r == cell_flag_if(cond, flags),
{
    if cond {
        flags
    } else {
        0
    }
}

pub(crate) fn pack_flag(cond: bool, flags: u16) -> (r: u16)
    ensures
        r == pack_flag_if(cond, flags),
{
    if cond {
        flags
    } else {
        0
    }
}

/// The flags of one cell in DIAG_OV_OT_UT.
pub fn ov_ot_ut_cell_faults(diag: u16, cell: u16, cell_count: u8) -> (r: u8)
    requires
        1 <= cell <= 5,
    ensures
        r == ov_ot_ut_cell_flags(diag, cell, cell_count),
{
    if cell > cell_count as u16 {
        return 0;
    }
    cell_flag(get_bit(diag, cell - 1), CellFaults::OVER_VOLTAGE) | cell_flag(
        get_bit(diag, cell + 5),
        CellFaults::EXTREME_OVER_VOLTAGE,
    )
}

/// The pack flags in DIAG_OV_OT_UT.
pub fn ov_ot_ut_pack_faults(diag: u16) -> (r: u16)
    ensures
        r == ov_ot_ut_pack_flags(diag),
{
    pack_flag(get_bit(diag, 5), PackFaults::OVER_VOLTAGE) | pack_flag(
        get_bit(diag, 11),
        PackFaults::CELL_VOLTAGE_SUM_VB_MISMATCH,
    ) | pack_flag(get_bit(diag, 12), PackFaults::NTC_OVER_TEMP) | pack_flag(
        get_bit(diag, 13),
        PackFaults::NTC_SEVERE_OVER_TEMP,
    ) | pack_flag(get_bit(diag, 14), PackFaults::NTC_UNDER_TEMP) | pack_flag(
        get_bit(diag, 15),
        PackFaults::DIE_OVER_TEMP,
    )
}

/// The flags of one cell in DIAG_UV.
pub fn uv_cell_faults(diag: u16, cell: u16, cell_count: u8) -> (r: u8)
    requires
        1 <= cell <= 5,
    ensures
        r == uv_cell_flags(diag, cell, cell_count),
{
    if cell > cell_count as u16 {
        return 0;
    }
    cell_flag(get_bit(diag, cell - 1), CellFaults::UNDER_VOLTAGE) | cell_flag(
        get_bit(diag, cell + 4),
        CellFaults::UNDER_VOLTAGE_FOR_BALANCING,
    ) | cell_flag(get_bit(diag, cell + 10), CellFaults::EXTREME_UNDER_VOLTAGE)
}

/// The pack flags in DIAG_UV.
pub fn uv_pack_faults(diag: u16) -> (r: u16)
    ensures
        r == uv_pack_flags(diag),
{
    pack_flag(get_bit(diag, 10), PackFaults::UNDER_VOLTAGE)
}

/// The pack flags in DIAG_CURR.
pub fn curr_pack_faults(diag: DiagCurr) -> (r: u16)
    ensures
        r == curr_pack_flags(diag.0),
{
    let d = diag.0;
    pack_flag(get_bit(d, 0), PackFaults::COULOMB_COUNTER_SATURATED) | pack_flag(
        get_bit(d, 1),
        PackFaults::OVER_CURRENT_CHARGE,
    ) | pack_flag(get_bit(d, 2), PackFaults::OVER_CURRENT_DISCHARGE) | pack_flag(
        get_bit(d, 3),
        PackFaults::PERSISTENT_OVER_CURRENT_IN_CHARGE,
    ) | pack_flag(get_bit(d, 4), PackFaults::PERSISTENT_OVER_CURRENT_IN_DISCHARGE) | pack_flag(
        get_bit(d, 5),
        PackFaults::SHORT_CIRCUIT_DISCHARGE,
    ) | pack_flag(get_bit(d, 6), PackFaults::PERSISTENT_SHORT_CIRCUIT_DISCHARGE) | pack_flag(
        get_bit(d, 7),
        PackFaults::FUSE_EXTERNAL,
    ) | pack_flag(get_bit(d, 8), PackFaults::FAULTN_EXTERNAL)
}

} // verus!
