//! Measurement registers.
use crate::bitfield::{field, get_field, lemma_low_masks, set_field};
use crate::conversions::{mv_of, ntc_voltage_mv_from_code, NTC_STEP_UV};
use vstd::prelude::*;

verus! {

/// Die temperature in kelvin of a 12-bit die temperature code: (343165 - 196 * code) / 1000,
/// and 0 for the codes above the range of the formula.
pub open spec fn die_temp_kelvin_of(code: int) -> int {
    if 196 * code > 343165 {
        0
    } else {
        (343165 - 196 * code) / 1000
    }
}

/// A cell voltage measurement: code in bits 0..12 (1.22 mV per step), cell number in bits 12..16.
#[derive(Clone, Copy, Debug, PartialEq, Eq, Structural)]
pub struct VCell(pub u16);

impl VCell {
    /// Create a register value for cell `cell` (1 to 5) with a measurement code.
    /// Returns `None` for another cell number; the code is cut to its 12 bits.
    pub fn new(cell: u8, measurement: u16) -> (r: Option<Self>)
        ensures
            r.is_some() == (1 <= cell <= 5),
            r matches Some(v) ==> field(v.0, 12, 4) == cell && field(v.0, 0, 12) == field(
                measurement,
                0,
                12,
            ),
    {
        if cell < 1 || cell > 5 {
            return None;
        }
        proof {
            lemma_low_masks();
        }
        let code = get_field(measurement, 0, 12);
        let raw = set_field(set_field(0, 0, 12, code), 12, 4, cell as u16);
        Some(Self(raw))
    }

    /// The measurement code
    pub fn get_vcell_meas_code(&self) -> (r: u16)
        ensures
            r == field(self.0, 0, 12),
    {
        proof {
            lemma_low_masks();
        }
        get_field(self.0, 0, 12)
    }

    /// The cell number
    pub fn get_cell(&self) -> (r: u8)
        ensures
            r == field(self.0, 12, 4),
    {
        proof {
            lemma_low_masks();
        }
        get_field(self.0, 12, 4) as u8
    }
}

/// The sum of the cell voltages: code in bits 0..15 (1.22 mV per step).
#[derive(Clone, Copy, Debug, PartialEq, Eq, Structural)]
pub struct VCellSum(pub u16);

impl VCellSum {
    /// The measurement code
    pub fn get_vcellsum_meas(&self) -> (r: u16)
        ensures
            r == field(self.0, 0, 15),
    {
        proof {
            lemma_low_masks();
        }
        get_field(self.0, 0, 15)
    }
}

/// The pack voltage: code in bits 0..15 (6.1 mV per step).
#[derive(Clone, Copy, Debug, PartialEq, Eq, Structural)]
pub struct VB(pub u16);

impl VB {
    /// The measurement code
    pub fn get_vb_meas_code(&self) -> (r: u16)
        ensures
            r == field(self.0, 0, 15),
    {
        proof {
            lemma_low_masks();
        }
        get_field(self.0, 0, 15)
    }
}

/// The NTC voltage: code in bits 0..12 (0.806 mV per step).
#[derive(Clone, Copy, Debug, PartialEq, Eq, Structural)]
pub struct NtcGpio(pub u16);

impl NtcGpio {
    /// The measurement code
    pub fn get_ntc_meas(&self) -> (r: u16)
        ensures
            r == field(self.0, 0, 12),
    {
        proof {
            lemma_low_masks();
        }
        get_field(self.0, 0, 12)
    }

    /// The NTC voltage in mV
    pub fn get_ntc_meas_mv(&self) -> (r: u16)
        ensures
            r == mv_of(field(self.0, 0, 12) as int, NTC_STEP_UV as int),
    {
        ntc_voltage_mv_from_code(self.get_ntc_meas())
    }
}

/// The die temperature: code in bits 0..12.
#[derive(Clone, Copy, Debug, PartialEq, Eq, Structural)]
pub struct DieTemp(pub u16);

impl DieTemp {
    /// The measurement code
    pub fn get_die_temp(&self) -> (r: u16)
        ensures
            r == field(self.0, 0, 12),
    {
        proof {
            lemma_low_masks();
        }
        get_field(self.0, 0, 12)
    }

    /// The die temperature in kelvin
    pub fn get_die_temp_kelvin(&self) -> (r: u16)
        ensures
            r == die_temp_kelvin_of(field(self.0, 0, 12) as int),
    {
        let code = self.get_die_temp() as u32;
        if 196 * code > 343165 {
            0
        } else {
            ((343165 - 196 * code) / 1000) as u16
        }
    }
}

} // verus!
