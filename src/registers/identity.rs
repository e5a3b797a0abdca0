//! Identity and bookkeeping registers.
use crate::bitfield::{agrees_outside, bit, field, get_bit, get_field, lemma_low_masks, set_field};
use vstd::prelude::*;

verus! {

/// Chip identity: metal revision in bits 0..4, silicon revision in bits 4..8.
#[derive(Clone, Copy, Debug, PartialEq, Eq, Structural)]
pub struct ChipID(pub u16);

impl ChipID {
    /// The metal revision of the chip
    pub fn metal_id(&self) -> (r: u8)
        ensures
            r == field(self.0, 0, 4),
    {
        proof {
            lemma_low_masks();
        }
        get_field(self.0, 0, 4) as u8
    }

    /// The silicon revision of the chip
    pub fn silicon_id(&self) -> (r: u8)
        ensures
            r == field(self.0, 4, 4),
    {
        proof {
            lemma_low_masks();
        }
        get_field(self.0, 4, 4) as u8
    }
}

/// The 7-bit bus address of the device, in bits 0..7.
#[derive(Clone, Copy, Debug, PartialEq, Eq, Structural)]
pub struct DevAddr(pub u16);

impl DevAddr {
    /// The bus address
    pub fn get_device_address(&self) -> (r: u8)
        ensures
            r == field(self.0, 0, 7),
    {
        proof {
            lemma_low_masks();
        }
        get_field(self.0, 0, 7) as u8
    }

    /// Set the bus address
    pub fn set_device_address(&mut self, device_address: u8)
        requires
            device_address <= 127,
        ensures
            field(final(self).0, 0, 7) == device_address,
            agrees_outside(old(self).0, final(self).0, 0, 7),
    {
        proof {
            lemma_low_masks();
        }
        self.0 = set_field(self.0, 0, 7, device_address as u16);
    }
}

/// The current sense amplifier gain correction factor, one 16-bit word.
#[derive(Clone, Copy, Debug, PartialEq, Eq, Structural)]
pub struct CsaGainFactor(pub u16);

/// Fault bits read from the VCELL1 register: trim CRC failure (bit 14) and configuration CRC failure (bit 15).
#[derive(Clone, Copy, Debug, PartialEq, Eq, Structural)]
pub struct VCell1Faults(pub u16);

impl VCell1Faults {
    /// Whether the CRC over the trim and calibration data failed
    pub fn get_crc_trim_cal_fail(&self) -> (r: bool)
        ensures
            r == bit(self.0, 14),
    {
        get_bit(self.0, 14)
    }

    /// Whether the CRC over the configuration data failed
    pub fn get_crc_cfg_fail(&self) -> (r: bool)
        ensures
            r == bit(self.0, 15),
    {
        get_bit(self.0, 15)
    }
}

/// Coulomb counter: sample count in bits 0..8, low byte of the accumulator in bits 8..16.
#[derive(Clone, Copy, Debug, PartialEq, Eq, Structural)]
pub struct CCAccLsbCntr(pub u16);

impl CCAccLsbCntr {
    /// The number of samples accumulated
    pub fn get_cc_sample_cnt(&self) -> (r: u8)
        ensures
            r == field(self.0, 0, 8),
    {
        proof {
            lemma_low_masks();
        }
        get_field(self.0, 0, 8) as u8
    }

    /// The low byte of the accumulator
    pub fn get_cc_acc_lsb(&self) -> (r: u8)
        ensures
            r == field(self.0, 8, 8),
    {
        proof {
            lemma_low_masks();
        }
        get_field(self.0, 8, 8) as u8
    }
}

} // verus!
