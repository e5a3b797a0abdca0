//! The CFG2_ENABLES register: conversion and protection enables, FET topology.
use crate::bitfield::{agrees_outside, bit, field, get_bit, lemma_field_of_zero, set_bit};
use vstd::prelude::*;

verus! {

/// Whether a FET driver sits on the high side or the low side of the pack.
#[derive(Clone, Copy, Debug, PartialEq, Eq, Structural)]
pub enum FetConfig {
    /// High side FET, encoded as 0
    HighSide,
    /// Low side FET, encoded as 1
    LowSide,
}

impl FetConfig {
    /// The configuration that a register bit encodes.
    pub open spec fn of_bit(b: bool) -> FetConfig {
        if b {
            FetConfig::LowSide
        } else {
            FetConfig::HighSide
        }
    }
}

/// Enables of the conversions and protections (bits 0..11), FET topology (bits 11 and 12) and CRC (bit 13).
#[derive(Clone, Copy, Debug, PartialEq, Eq, Structural)]
pub struct Cfg2Enables(pub u16);

impl Cfg2Enables {
    /// Create a register value with each enable given.
    pub fn new(
        vcell_en_1: bool,
        vcell_en_2: bool,
        vcell_en_3: bool,
        vcell_en_4: bool,
        vcell_en_5: bool,
        vb_en: bool,
        ntc_en: bool,
        csa_en: bool,
        cc_acc_en: bool,
        ovc_en: bool,
        sc_en: bool,
        dchg_hs_ls: FetConfig,
        chg_hs_ls: FetConfig,
        crc_en: bool,
    ) -> (r: Self)
        ensures
            bit(r.0, 0) == vcell_en_1,
            bit(r.0, 1) == vcell_en_2,
            bit(r.0, 2) == vcell_en_3,
            bit(r.0, 3) == vcell_en_4,
            bit(r.0, 4) == vcell_en_5,
            bit(r.0, 5) == vb_en,
            bit(r.0, 6) == ntc_en,
            bit(r.0, 7) == csa_en,
            bit(r.0, 8) == cc_acc_en,
            bit(r.0, 9) == ovc_en,
            bit(r.0, 10) == sc_en,
            bit(r.0, 13) == crc_en,
            FetConfig::of_bit(bit(r.0, 11)) == dchg_hs_ls,
            FetConfig::of_bit(bit(r.0, 12)) == chg_hs_ls,
            field(r.0, 14, 2) == 0,
    {
        let mut value = Self(0);
        proof {
            lemma_field_of_zero(14, 2);
        }
        value.set_vcell_en_1(vcell_en_1);
        value.set_vcell_en_2(vcell_en_2);
        value.set_vcell_en_3(vcell_en_3);
        value.set_vcell_en_4(vcell_en_4);
        value.set_vcell_en_5(vcell_en_5);
        value.set_vb_en(vb_en);
        value.set_ntc_en(ntc_en);
        value.set_csa_en(csa_en);
        value.set_cc_acc_en(cc_acc_en);
        value.set_ovc_en(ovc_en);
        value.set_sc_en(sc_en);
        value.set_dchg_hs_ls(dchg_hs_ls);
        value.set_chg_hs_ls(chg_hs_ls);
        value.set_crc_en(crc_en);
        value
    }

    /// Whether the cell 1 voltage conversion is enabled
    pub fn get_vcell_en_1(&self) -> (r: bool)
        ensures
            r == bit(self.0, 0),
    {
        get_bit(self.0, 0)
    }

    /// Enable or disable the cell 1 voltage conversion
    pub fn set_vcell_en_1(&mut self, value: bool)
        ensures
            bit(final(self).0, 0) == value,
            agrees_outside(old(self).0, final(self).0, 0, 1),
    {
        self.0 = set_bit(self.0, 0, value);
    }

    /// Whether the cell 2 voltage conversion is enabled
    pub fn get_vcell_en_2(&self) -> (r: bool)
        ensures
            r == bit(self.0, 1),
    {
        get_bit(self.0, 1)
    }

    /// Enable or disable the cell 2 voltage conversion
    pub fn set_vcell_en_2(&mut self, value: bool)
        ensures
            bit(final(self).0, 1) == value,
            agrees_outside(old(self).0, final(self).0, 1, 1),
    {
        self.0 = set_bit(self.0, 1, value);
    }

    /// Whether the cell 3 voltage conversion is enabled
    pub fn get_vcell_en_3(&self) -> (r: bool)
        ensures
            r == bit(self.0, 2),
    {
        get_bit(self.0, 2)
    }

    /// Enable or disable the cell 3 voltage conversion
    pub fn set_vcell_en_3(&mut self, value: bool)
        ensures
            bit(final(self).0, 2) == value,
            agrees_outside(old(self).0, final(self).0, 2, 1),
    {
        self.0 = set_bit(self.0, 2, value);
    }

    /// Whether the cell 4 voltage conversion is enabled
    pub fn get_vcell_en_4(&self) -> (r: bool)
        ensures
            r == bit(self.0, 3),
    {
        get_bit(self.0, 3)
    }

    /// Enable or disable the cell 4 voltage conversion
    pub fn set_vcell_en_4(&mut self, value: bool)
        ensures
            bit(final(self).0, 3) == value,
            agrees_outside(old(self).0, final(self).0, 3, 1),
    {
        self.0 = set_bit(self.0, 3, value);
    }

    /// Whether the cell 5 voltage conversion is enabled
    pub fn get_vcell_en_5(&self) -> (r: bool)
        ensures
            r == bit(self.0, 4),
    {
        get_bit(self.0, 4)
    }

    /// Enable or disable the cell 5 voltage conversion
    pub fn set_vcell_en_5(&mut self, value: bool)
        ensures
            bit(final(self).0, 4) == value,
            agrees_outside(old(self).0, final(self).0, 4, 1),
    {
        self.0 = set_bit(self.0, 4, value);
    }

    /// Whether the battery voltage conversion is enabled
    pub fn get_vb_en(&self) -> (r: bool)
        ensures
            r == bit(self.0, 5),
    {
        get_bit(self.0, 5)
    }

    /// Enable or disable the battery voltage conversion
    pub fn set_vb_en(&mut self, value: bool)
        ensures
            bit(final(self).0, 5) == value,
            agrees_outside(old(self).0, final(self).0, 5, 1),
    {
        self.0 = set_bit(self.0, 5, value);
    }

    /// Whether the temperature conversion is enabled
    pub fn get_ntc_en(&self) -> (r: bool)
        ensures
            r == bit(self.0, 6),
    {
        get_bit(self.0, 6)
    }

    /// Enable or disable the temperature conversion
    pub fn set_ntc_en(&mut self, value: bool)
        ensures
            bit(final(self).0, 6) == value,
            agrees_outside(old(self).0, final(self).0, 6, 1),
    {
        self.0 = set_bit(self.0, 6, value);
    }

    /// Whether the current sense amplifier is enabled
    pub fn get_csa_en(&self) -> (r: bool)
        ensures
            r == bit(self.0, 7),
    {
        get_bit(self.0, 7)
    }

    /// Enable or disable the current sense amplifier
    pub fn set_csa_en(&mut self, value: bool)
        ensures
            bit(final(self).0, 7) == value,
            agrees_outside(old(self).0, final(self).0, 7, 1),
    {
        self.0 = set_bit(self.0, 7, value);
    }

    /// Whether the coulomb counter accumulator is enabled
    pub fn get_cc_acc_en(&self) -> (r: bool)
        ensures
            r == bit(self.0, 8),
    {
        get_bit(self.0, 8)
    }

    /// Enable or disable the coulomb counter accumulator
    pub fn set_cc_acc_en(&mut self, value: bool)
        ensures
            bit(final(self).0, 8) == value,
            agrees_outside(old(self).0, final(self).0, 8, 1),
    {
        self.0 = set_bit(self.0, 8, value);
    }

    /// Whether the over-current protection is enabled
    pub fn get_ovc_en(&self) -> (r: bool)
        ensures
            r == bit(self.0, 9),
    {
        get_bit(self.0, 9)
    }

    /// Enable or disable the over-current protection
    pub fn set_ovc_en(&mut self, value: bool)
        ensures
            bit(final(self).0, 9) == value,
            agrees_outside(old(self).0, final(self).0, 9, 1),
    {
        self.0 = set_bit(self.0, 9, value);
    }

    /// Whether the short circuit monitor is enabled
    pub fn get_sc_en(&self) -> (r: bool)
        ensures
            r == bit(self.0, 10),
    {
        get_bit(self.0, 10)
    }

    /// Enable or disable the short circuit monitor
    pub fn set_sc_en(&mut self, value: bool)
        ensures
            bit(final(self).0, 10) == value,
            agrees_outside(old(self).0, final(self).0, 10, 1),
    {
        self.0 = set_bit(self.0, 10, value);
    }

    /// Where the discharge FET sits
    pub fn get_dchg_hs_ls(&self) -> (r: FetConfig)
        ensures
            r == FetConfig::of_bit(bit(self.0, 11)),
    {
        if get_bit(self.0, 11) {
            FetConfig::LowSide
        } else {
            FetConfig::HighSide
        }
    }

    /// Set where the discharge FET sits
    pub fn set_dchg_hs_ls(&mut self, value: FetConfig)
        ensures
            FetConfig::of_bit(bit(final(self).0, 11)) == value,
            agrees_outside(old(self).0, final(self).0, 11, 1),
    {
        let low_side = match value {
            FetConfig::HighSide => false,
            FetConfig::LowSide => true,
        };
        self.0 = set_bit(self.0, 11, low_side);
    }

    /// Where the charge FET sits
    pub fn get_chg_hs_ls(&self) -> (r: FetConfig)
        ensures
            r == FetConfig::of_bit(bit(self.0, 12)),
    {
        if get_bit(self.0, 12) {
            FetConfig::LowSide
        } else {
            FetConfig::HighSide
        }
    }

    /// Set where the charge FET sits
    pub fn set_chg_hs_ls(&mut self, value: FetConfig)
        ensures
            FetConfig::of_bit(bit(final(self).0, 12)) == value,
            agrees_outside(old(self).0, final(self).0, 12, 1),
    {
        let low_side = match value {
            FetConfig::HighSide => false,
            FetConfig::LowSide => true,
        };
        self.0 = set_bit(self.0, 12, low_side);
    }

    /// Whether the CRC on bus frames is enabled
    pub fn get_crc_en(&self) -> (r: bool)
        ensures
            r == bit(self.0, 13),
    {
        get_bit(self.0, 13)
    }

    /// Enable or disable the CRC on bus frames
    pub fn set_crc_en(&mut self, value: bool)
        ensures
            bit(final(self).0, 13) == value,
            agrees_outside(old(self).0, final(self).0, 13, 1),
    {
        self.0 = set_bit(self.0, 13, value);
    }
}

/// Setting one field of `Cfg2Enables` leaves every other field as it was: each setter
/// ensures that the word after it agrees with the word before it outside the bit it
/// sets, and then the field at every other bit reads the same.
pub proof fn lemma_cfg2_enables_isolation(before: Cfg2Enables, after: Cfg2Enables, i: u16, j: u16)
    requires
        i < 14,
        j < 14,
        i != j,
        agrees_outside(before.0, after.0, i, 1),
    ensures
        bit(after.0, j) == bit(before.0, j),
        FetConfig::of_bit(bit(after.0, j)) == FetConfig::of_bit(bit(before.0, j)),
{
    assert(field(after.0, j, 1) == field(before.0, j, 1));
}

} // verus!
