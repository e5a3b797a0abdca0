//! Threshold registers: a threshold code, most with a fault counter threshold beside it.
//! The counter threshold is the number of consecutive measurement cycles out of range
//! before the fault is raised.
use crate::bitfield::{
    agrees_outside, field, get_field, lemma_field_of_zero, lemma_low_masks, set_field,
    lemma_word_12, lemma_word_12_4, lemma_word_8_4, lemma_word_8_8,
};
use vstd::prelude::*;

verus! {

/// Cell over-voltage threshold: code in bits 0..8 (19.52 mV per step), fault counter threshold in bits 8..12.
#[derive(Clone, Copy, Debug, PartialEq, Eq, Structural)]
pub struct VCellOvTh(pub u16);

impl VCellOvTh {
    /// Create a register value from a threshold code and a fault counter threshold.
    /// Returns `None` when a value does not fit its field.
    pub fn new(vcell_ov_th: u8, ncell_ov_cnt_th: u8) -> (r: Option<Self>)
        ensures
            r.is_some() == (ncell_ov_cnt_th < 16),
            r matches Some(v) ==> field(v.0, 0, 8) == vcell_ov_th
                && field(v.0, 8, 4) == ncell_ov_cnt_th
                && field(v.0, 12, 4) == 0
                && v.0 == vcell_ov_th + ncell_ov_cnt_th * 256,
    {
        if ncell_ov_cnt_th >= 16 {
            return None;
        }
        let mut value = Self(0);
        proof {
            lemma_low_masks();
            lemma_field_of_zero(12, 4);
        }
        value.set_vcell_ov_th(vcell_ov_th);
        value.set_ncell_ov_cnt_th(ncell_ov_cnt_th);
        proof {
            lemma_word_8_4(value.0, vcell_ov_th as u16, ncell_ov_cnt_th as u16);
        }
        Some(value)
    }

    /// Get the cell over-voltage threshold code
    pub fn get_vcell_ov_th(&self) -> (r: u8)
        ensures
            r == field(self.0, 0, 8),
    {
        proof {
            lemma_low_masks();
        }
        get_field(self.0, 0, 8) as u8
    }

    /// Set the cell over-voltage threshold code
    pub fn set_vcell_ov_th(&mut self, vcell_ov_th: u8)
        ensures
            field(final(self).0, 0, 8) == vcell_ov_th,
            agrees_outside(old(self).0, final(self).0, 0, 8),
    {
        proof {
            lemma_low_masks();
        }
        self.0 = set_field(self.0, 0, 8, vcell_ov_th as u16);
    }

    /// Get the fault counter threshold
    pub fn get_ncell_ov_cnt_th(&self) -> (r: u8)
        ensures
            r == field(self.0, 8, 4),
    {
        proof {
            lemma_low_masks();
        }
        get_field(self.0, 8, 4) as u8
    }

    /// Set the fault counter threshold
    pub fn set_ncell_ov_cnt_th(&mut self, ncell_ov_cnt_th: u8)
        requires
            ncell_ov_cnt_th <= 15,
        ensures
            field(final(self).0, 8, 4) == ncell_ov_cnt_th,
            agrees_outside(old(self).0, final(self).0, 8, 4),
    {
        proof {
            lemma_low_masks();
        }
        self.0 = set_field(self.0, 8, 4, ncell_ov_cnt_th as u16);
    }
}

/// Cell under-voltage threshold: code in bits 0..8 (19.52 mV per step), fault counter threshold in bits 8..12.
#[derive(Clone, Copy, Debug, PartialEq, Eq, Structural)]
pub struct VCellUvTh(pub u16);

impl VCellUvTh {
    /// Create a register value from a threshold code and a fault counter threshold.
    /// Returns `None` when a value does not fit its field.
    pub fn new(vcell_uv_th: u8, ncell_uv_cnt_th: u8) -> (r: Option<Self>)
        ensures
            r.is_some() == (ncell_uv_cnt_th < 16),
            r matches Some(v) ==> field(v.0, 0, 8) == vcell_uv_th
                && field(v.0, 8, 4) == ncell_uv_cnt_th
                && field(v.0, 12, 4) == 0
                && v.0 == vcell_uv_th + ncell_uv_cnt_th * 256,
    {
        if ncell_uv_cnt_th >= 16 {
            return None;
        }
        let mut value = Self(0);
        proof {
            lemma_low_masks();
            lemma_field_of_zero(12, 4);
        }
        value.set_vcell_uv_th(vcell_uv_th);
        value.set_ncell_uv_cnt_th(ncell_uv_cnt_th);
        proof {
            lemma_word_8_4(value.0, vcell_uv_th as u16, ncell_uv_cnt_th as u16);
        }
        Some(value)
    }

    /// Get the cell under-voltage threshold code
    pub fn get_vcell_uv_th(&self) -> (r: u8)
        ensures
            r == field(self.0, 0, 8),
    {
        proof {
            lemma_low_masks();
        }
        get_field(self.0, 0, 8) as u8
    }

    /// Set the cell under-voltage threshold code
    pub fn set_vcell_uv_th(&mut self, vcell_uv_th: u8)
        ensures
            field(final(self).0, 0, 8) == vcell_uv_th,
            agrees_outside(old(self).0, final(self).0, 0, 8),
    {
        proof {
            lemma_low_masks();
        }
        self.0 = set_field(self.0, 0, 8, vcell_uv_th as u16);
    }

    /// Get the fault counter threshold
    pub fn get_ncell_uv_cnt_th(&self) -> (r: u8)
        ensures
            r == field(self.0, 8, 4),
    {
        proof {
            lemma_low_masks();
        }
        get_field(self.0, 8, 4) as u8
    }

    /// Set the fault counter threshold
    pub fn set_ncell_uv_cnt_th(&mut self, ncell_uv_cnt_th: u8)
        requires
            ncell_uv_cnt_th <= 15,
        ensures
            field(final(self).0, 8, 4) == ncell_uv_cnt_th,
            agrees_outside(old(self).0, final(self).0, 8, 4),
    {
        proof {
            lemma_low_masks();
        }
        self.0 = set_field(self.0, 8, 4, ncell_uv_cnt_th as u16);
    }
}

/// Cell balancing under-voltage threshold: code in bits 0..8 (19.52 mV per step), fault counter threshold in bits 8..12.
#[derive(Clone, Copy, Debug, PartialEq, Eq, Structural)]
pub struct VCellBalUvDeltaTh(pub u16);

impl VCellBalUvDeltaTh {
    /// Create a register value from a threshold code and a fault counter threshold.
    /// Returns `None` when a value does not fit its field.
    pub fn new(vcell_bal_uv_delta_th: u8, ncell_uv_cnt_th: u8) -> (r: Option<Self>)
        ensures
            r.is_some() == (ncell_uv_cnt_th < 16),
            r matches Some(v) ==> field(v.0, 0, 8) == vcell_bal_uv_delta_th
                && field(v.0, 8, 4) == ncell_uv_cnt_th
                && field(v.0, 12, 4) == 0
                && v.0 == vcell_bal_uv_delta_th + ncell_uv_cnt_th * 256,
    {
        if ncell_uv_cnt_th >= 16 {
            return None;
        }
        let mut value = Self(0);
        proof {
            lemma_low_masks();
            lemma_field_of_zero(12, 4);
        }
        value.set_vcell_bal_uv_th(vcell_bal_uv_delta_th);
        value.set_ncell_uv_cnt_th(ncell_uv_cnt_th);
        proof {
            lemma_word_8_4(value.0, vcell_bal_uv_delta_th as u16, ncell_uv_cnt_th as u16);
        }
        Some(value)
    }

    /// Get the cell balancing under-voltage threshold code
    pub fn get_vcell_bal_uv_delta_th(&self) -> (r: u8)
        ensures
            r == field(self.0, 0, 8),
    {
        proof {
            lemma_low_masks();
        }
        get_field(self.0, 0, 8) as u8
    }

    /// Set the cell balancing under-voltage threshold code
    pub fn set_vcell_bal_uv_th(&mut self, vcell_bal_uv_delta_th: u8)
        ensures
            field(final(self).0, 0, 8) == vcell_bal_uv_delta_th,
            agrees_outside(old(self).0, final(self).0, 0, 8),
    {
        proof {
            lemma_low_masks();
        }
        self.0 = set_field(self.0, 0, 8, vcell_bal_uv_delta_th as u16);
    }

    /// Get the fault counter threshold
    pub fn get_ncell_uv_cnt_th(&self) -> (r: u8)
        ensures
            r == field(self.0, 8, 4),
    {
        proof {
            lemma_low_masks();
        }
        get_field(self.0, 8, 4) as u8
    }

    /// Set the fault counter threshold
    pub fn set_ncell_uv_cnt_th(&mut self, ncell_uv_cnt_th: u8)
        requires
            ncell_uv_cnt_th <= 15,
        ensures
            field(final(self).0, 8, 4) == ncell_uv_cnt_th,
            agrees_outside(old(self).0, final(self).0, 8, 4),
    {
        proof {
            lemma_low_masks();
        }
        self.0 = set_field(self.0, 8, 4, ncell_uv_cnt_th as u16);
    }
}

/// Pack over-voltage threshold: code in bits 0..8 (97.6 mV per step), fault counter threshold in bits 8..12.
#[derive(Clone, Copy, Debug, PartialEq, Eq, Structural)]
pub struct VBOvTh(pub u16);

impl VBOvTh {
    /// Create a register value from a threshold code and a fault counter threshold.
    /// Returns `None` when a value does not fit its field.
    pub fn new(vb_ov_th: u8, nvb_ov_cnt_th: u8) -> (r: Option<Self>)
        ensures
            r.is_some() == (nvb_ov_cnt_th < 16),
            r matches Some(v) ==> field(v.0, 0, 8) == vb_ov_th
                && field(v.0, 8, 4) == nvb_ov_cnt_th
                && field(v.0, 12, 4) == 0
                && v.0 == vb_ov_th + nvb_ov_cnt_th * 256,
    {
        if nvb_ov_cnt_th >= 16 {
            return None;
        }
        let mut value = Self(0);
        proof {
            lemma_low_masks();
            lemma_field_of_zero(12, 4);
        }
        value.set_vb_ov_th(vb_ov_th);
        value.set_ncvb_ov_cnt_th(nvb_ov_cnt_th);
        proof {
            lemma_word_8_4(value.0, vb_ov_th as u16, nvb_ov_cnt_th as u16);
        }
        Some(value)
    }

    /// Get the pack over-voltage threshold code
    pub fn get_vb_ov_th(&self) -> (r: u8)
        ensures
            r == field(self.0, 0, 8),
    {
        proof {
            lemma_low_masks();
        }
        get_field(self.0, 0, 8) as u8
    }

    /// Set the pack over-voltage threshold code
    pub fn set_vb_ov_th(&mut self, vb_ov_th: u8)
        ensures
            field(final(self).0, 0, 8) == vb_ov_th,
            agrees_outside(old(self).0, final(self).0, 0, 8),
    {
        proof {
            lemma_low_masks();
        }
        self.0 = set_field(self.0, 0, 8, vb_ov_th as u16);
    }

    /// Get the fault counter threshold
    pub fn get_nvb_ov_cnt_th(&self) -> (r: u8)
        ensures
            r == field(self.0, 8, 4),
    {
        proof {
            lemma_low_masks();
        }
        get_field(self.0, 8, 4) as u8
    }

    /// Set the fault counter threshold
    pub fn set_ncvb_ov_cnt_th(&mut self, nvb_ov_cnt_th: u8)
        requires
            nvb_ov_cnt_th <= 15,
        ensures
            field(final(self).0, 8, 4) == nvb_ov_cnt_th,
            agrees_outside(old(self).0, final(self).0, 8, 4),
    {
        proof {
            lemma_low_masks();
        }
        self.0 = set_field(self.0, 8, 4, nvb_ov_cnt_th as u16);
    }
}

/// Pack under-voltage threshold: code in bits 0..8 (97.6 mV per step), fault counter threshold in bits 8..12.
#[derive(Clone, Copy, Debug, PartialEq, Eq, Structural)]
pub struct VBUvTh(pub u16);

impl VBUvTh {
    /// Create a register value from a threshold code and a fault counter threshold.
    /// Returns `None` when a value does not fit its field.
    pub fn new(vb_uv_th: u8, nvb_uv_cnt_th: u8) -> (r: Option<Self>)
        ensures
            r.is_some() == (nvb_uv_cnt_th < 16),
            r matches Some(v) ==> field(v.0, 0, 8) == vb_uv_th
                && field(v.0, 8, 4) == nvb_uv_cnt_th
                && field(v.0, 12, 4) == 0
                && v.0 == vb_uv_th + nvb_uv_cnt_th * 256,
    {
        if nvb_uv_cnt_th >= 16 {
            return None;
        }
        let mut value = Self(0);
        proof {
            lemma_low_masks();
            lemma_field_of_zero(12, 4);
        }
        value.set_vb_uv_th(vb_uv_th);
        value.set_ncvb_uv_cnt_th(nvb_uv_cnt_th);
        proof {
            lemma_word_8_4(value.0, vb_uv_th as u16, nvb_uv_cnt_th as u16);
        }
        Some(value)
    }

    /// Get the pack under-voltage threshold code
    pub fn get_vb_uv_th(&self) -> (r: u8)
        ensures
            r == field(self.0, 0, 8),
    {
        proof {
            lemma_low_masks();
        }
        get_field(self.0, 0, 8) as u8
    }

    /// Set the pack under-voltage threshold code
    pub fn set_vb_uv_th(&mut self, vb_uv_th: u8)
        ensures
            field(final(self).0, 0, 8) == vb_uv_th,
            agrees_outside(old(self).0, final(self).0, 0, 8),
    {
        proof {
            lemma_low_masks();
        }
        self.0 = set_field(self.0, 0, 8, vb_uv_th as u16);
    }

    /// Get the fault counter threshold
    pub fn get_nvb_uv_cnt_th(&self) -> (r: u8)
        ensures
            r == field(self.0, 8, 4),
    {
        proof {
            lemma_low_masks();
        }
        get_field(self.0, 8, 4) as u8
    }

    /// Set the fault counter threshold
    pub fn set_ncvb_uv_cnt_th(&mut self, nvb_uv_cnt_th: u8)
        requires
            nvb_uv_cnt_th <= 15,
        ensures
            field(final(self).0, 8, 4) == nvb_uv_cnt_th,
            agrees_outside(old(self).0, final(self).0, 8, 4),
    {
        proof {
            lemma_low_masks();
        }
        self.0 = set_field(self.0, 8, 4, nvb_uv_cnt_th as u16);
    }
}

/// NTC over-temperature threshold: code in bits 0..12 (0.806 mV per step), fault counter threshold in bits 12..16.
#[derive(Clone, Copy, Debug, PartialEq, Eq, Structural)]
pub struct VNTCOTTh(pub u16);

impl VNTCOTTh {
    /// Create a register value from a threshold code and a fault counter threshold.
    /// Returns `None` when a value does not fit its field.
    pub fn new(ntc_ot_th: u16, nntc_ot_cnt_th: u8) -> (r: Option<Self>)
        ensures
            r.is_some() == (ntc_ot_th <= 0x0FFF && nntc_ot_cnt_th < 16),
            r matches Some(v) ==> field(v.0, 0, 12) == ntc_ot_th
                && field(v.0, 12, 4) == nntc_ot_cnt_th
                && v.0 == ntc_ot_th + nntc_ot_cnt_th * 4096,
    {
        if ntc_ot_th > 0x0FFF || nntc_ot_cnt_th >= 16 {
            return None;
        }
        let mut value = Self(0);
        proof {
            lemma_low_masks();
        }
        value.set_ntc_ot_th(ntc_ot_th);
        value.set_nntc_ot_cnt_th(nntc_ot_cnt_th);
        proof {
            lemma_word_12_4(value.0, ntc_ot_th, nntc_ot_cnt_th as u16);
        }
        Some(value)
    }

    /// Get the NTC over-temperature threshold code
    pub fn get_ntc_ot_th(&self) -> (r: u16)
        ensures
            r == field(self.0, 0, 12),
    {
        proof {
            lemma_low_masks();
        }
        get_field(self.0, 0, 12)
    }

    /// Set the NTC over-temperature threshold code
    pub fn set_ntc_ot_th(&mut self, ntc_ot_th: u16)
        requires
            ntc_ot_th <= 0x0FFF,
        ensures
            field(final(self).0, 0, 12) == ntc_ot_th,
            agrees_outside(old(self).0, final(self).0, 0, 12),
    {
        proof {
            lemma_low_masks();
        }
        self.0 = set_field(self.0, 0, 12, ntc_ot_th);
    }

    /// Get the fault counter threshold
    pub fn get_nntc_ot_cnt_th(&self) -> (r: u8)
        ensures
            r == field(self.0, 12, 4),
    {
        proof {
            lemma_low_masks();
        }
        get_field(self.0, 12, 4) as u8
    }

    /// Set the fault counter threshold
    pub fn set_nntc_ot_cnt_th(&mut self, nntc_ot_cnt_th: u8)
        requires
            nntc_ot_cnt_th <= 15,
        ensures
            field(final(self).0, 12, 4) == nntc_ot_cnt_th,
            agrees_outside(old(self).0, final(self).0, 12, 4),
    {
        proof {
            lemma_low_masks();
        }
        self.0 = set_field(self.0, 12, 4, nntc_ot_cnt_th as u16);
    }
}

/// NTC under-temperature threshold: code in bits 0..12 (0.806 mV per step), fault counter threshold in bits 12..16.
#[derive(Clone, Copy, Debug, PartialEq, Eq, Structural)]
pub struct VNTCUTTh(pub u16);

impl VNTCUTTh {
    /// Create a register value from a threshold code and a fault counter threshold.
    /// Returns `None` when a value does not fit its field.
    pub fn new(threshold: u16, fault_count: u8) -> (r: Option<Self>)
        ensures
            r.is_some() == (threshold <= 0x0FFF && fault_count < 16),
            r matches Some(v) ==> field(v.0, 0, 12) == threshold
                && field(v.0, 12, 4) == fault_count
                && v.0 == threshold + fault_count * 4096,
    {
        if threshold > 0x0FFF || fault_count >= 16 {
            return None;
        }
        let mut value = Self(0);
        proof {
            lemma_low_masks();
        }
        value.set_ntc_ut_th(threshold);
        value.set_nntc_ut_cnt_th(fault_count);
        proof {
            lemma_word_12_4(value.0, threshold, fault_count as u16);
        }
        Some(value)
    }

    /// Get the NTC under-temperature threshold code
    pub fn get_ntc_ut_th(&self) -> (r: u16)
        ensures
            r == field(self.0, 0, 12),
    {
        proof {
            lemma_low_masks();
        }
        get_field(self.0, 0, 12)
    }

    /// Set the NTC under-temperature threshold code
    pub fn set_ntc_ut_th(&mut self, threshold: u16)
        requires
            threshold <= 0x0FFF,
        ensures
            field(final(self).0, 0, 12) == threshold,
            agrees_outside(old(self).0, final(self).0, 0, 12),
    {
        proof {
            lemma_low_masks();
        }
        self.0 = set_field(self.0, 0, 12, threshold);
    }

    /// Get the fault counter threshold
    pub fn get_nntc_ut_cnt_th(&self) -> (r: u8)
        ensures
            r == field(self.0, 12, 4),
    {
        proof {
            lemma_low_masks();
        }
        get_field(self.0, 12, 4) as u8
    }

    /// Set the fault counter threshold
    pub fn set_nntc_ut_cnt_th(&mut self, fault_count: u8)
        requires
            fault_count <= 15,
        ensures
            field(final(self).0, 12, 4) == fault_count,
            agrees_outside(old(self).0, final(self).0, 12, 4),
    {
        proof {
            lemma_low_masks();
        }
        self.0 = set_field(self.0, 12, 4, fault_count as u16);
    }
}

/// Cell severe voltage thresholds: severe over-voltage delta code in bits 0..8, severe under-voltage delta code in bits 8..16.
#[derive(Clone, Copy, Debug, PartialEq, Eq, Structural)]
pub struct VCellSevereDeltaThrs(pub u16);

impl VCellSevereDeltaThrs {
    /// Create a register value from the severe over-voltage and under-voltage delta codes.
    pub fn new(
        cell_severe_over_voltage_delta_threshold: u8,
        cell_severe_under_voltage_delta_threshold: u8,
    ) -> (r: Self)
        ensures
            field(r.0, 0, 8) == cell_severe_over_voltage_delta_threshold,
            field(r.0, 8, 8) == cell_severe_under_voltage_delta_threshold,
            r.0 == cell_severe_over_voltage_delta_threshold
                + cell_severe_under_voltage_delta_threshold * 256,
    {
        let mut value = Self(0);
        value.set_vcell_severe_ov_delta_th(cell_severe_over_voltage_delta_threshold);
        value.set_vcell_severe_uv_delta_th(cell_severe_under_voltage_delta_threshold);
        proof {
            lemma_word_8_8(
                value.0,
                cell_severe_over_voltage_delta_threshold as u16,
                cell_severe_under_voltage_delta_threshold as u16,
            );
        }
        value
    }

    /// Get the severe over-voltage delta threshold code
    pub fn get_vcell_severe_ov_delta_th(&self) -> (r: u8)
        ensures
            r == field(self.0, 0, 8),
    {
        proof {
            lemma_low_masks();
        }
        get_field(self.0, 0, 8) as u8
    }

    /// Set the severe over-voltage delta threshold code
    pub fn set_vcell_severe_ov_delta_th(&mut self, severe_ov_threshold: u8)
        ensures
            field(final(self).0, 0, 8) == severe_ov_threshold,
            agrees_outside(old(self).0, final(self).0, 0, 8),
    {
        proof {
            lemma_low_masks();
        }
        self.0 = set_field(self.0, 0, 8, severe_ov_threshold as u16);
    }

    /// Get the severe under-voltage delta threshold code
    pub fn get_vcell_severe_uv_delta_th(&self) -> (r: u8)
        ensures
            r == field(self.0, 8, 8),
    {
        proof {
            lemma_low_masks();
        }
        get_field(self.0, 8, 8) as u8
    }

    /// Set the severe under-voltage delta threshold code
    pub fn set_vcell_severe_uv_delta_th(&mut self, severe_uv_threshold: u8)
        ensures
            field(final(self).0, 8, 8) == severe_uv_threshold,
            agrees_outside(old(self).0, final(self).0, 8, 8),
    {
        proof {
            lemma_low_masks();
        }
        self.0 = set_field(self.0, 8, 8, severe_uv_threshold as u16);
    }
}

/// NTC severe over-temperature threshold: code in bits 0..12 (0.806 mV per step).
#[derive(Clone, Copy, Debug, PartialEq, Eq, Structural)]
pub struct VNTCSevereOTTh(pub u16);

impl VNTCSevereOTTh {
    /// Create a register value from a threshold code.
    /// Returns `None` when the code does not fit its 12 bits.
    pub fn new(ntc_severe_ot_th: u16) -> (r: Option<Self>)
        ensures
            r.is_some() == (ntc_severe_ot_th <= 0x0FFF),
            r matches Some(v) ==> field(v.0, 0, 12) == ntc_severe_ot_th && field(v.0, 12, 4) == 0
                && v.0 == ntc_severe_ot_th,
    {
        if ntc_severe_ot_th > 0x0FFF {
            return None;
        }
        let mut value = Self(0);
        proof {
            lemma_low_masks();
            lemma_field_of_zero(12, 4);
        }
        value.set_ntc_severe_ot_th(ntc_severe_ot_th);
        proof {
            lemma_word_12(value.0, ntc_severe_ot_th);
        }
        Some(value)
    }

    /// Get the NTC severe over-temperature threshold code
    pub fn get_ntc_severe_ot_th(&self) -> (r: u16)
        ensures
            r == field(self.0, 0, 12),
    {
        proof {
            lemma_low_masks();
        }
        get_field(self.0, 0, 12)
    }

    /// Set the NTC severe over-temperature threshold code
    pub fn set_ntc_severe_ot_th(&mut self, ntc_ot_th: u16)
        requires
            ntc_ot_th <= 0x0FFF,
        ensures
            field(final(self).0, 0, 12) == ntc_ot_th,
            agrees_outside(old(self).0, final(self).0, 0, 12),
    {
        proof {
            lemma_low_masks();
        }
        self.0 = set_field(self.0, 0, 12, ntc_ot_th);
    }
}

/// Largest allowed difference between the pack voltage and the sum of the cells: code in bits 0..8 (97.6 mV per step).
#[derive(Clone, Copy, Debug, PartialEq, Eq, Structural)]
pub struct VBSumMaxDiffTh(pub u16);

impl VBSumMaxDiffTh {
    /// Get the pack versus cell sum difference threshold code
    pub fn get_vb_sum_max_diff_th_volts(&self) -> (r: u8)
        ensures
            r == field(self.0, 0, 8),
    {
        proof {
            lemma_low_masks();
        }
        get_field(self.0, 0, 8) as u8
    }

    /// Set the pack versus cell sum difference threshold code
    pub fn set_vb_sum_max_diff_th_volts(&mut self, vb_sum_max_diff: u8)
        ensures
            field(final(self).0, 0, 8) == vb_sum_max_diff,
            agrees_outside(old(self).0, final(self).0, 0, 8),
    {
        proof {
            lemma_low_masks();
        }
        self.0 = set_field(self.0, 0, 8, vb_sum_max_diff as u16);
    }
}

} // verus!
