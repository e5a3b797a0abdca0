//! Current protection registers.
use crate::bitfield::{agrees_outside, field, get_field, lemma_low_masks, set_field};
use vstd::prelude::*;

verus! {

/// Over-current thresholds: discharge code in bits 0..8, charge code in bits 8..16.
#[derive(Clone, Copy, Debug, PartialEq, Eq, Structural)]
pub struct OvCThresholds(pub u16);

impl OvCThresholds {
    /// Get the discharge over-current threshold code
    pub fn get_ovc_dchg_th(&self) -> (r: u8)
        ensures
            r == field(self.0, 0, 8),
    {
        proof {
            lemma_low_masks();
        }
        get_field(self.0, 0, 8) as u8
    }

    /// Set the discharge over-current threshold code
    pub fn set_ovc_dchg_th(&mut self, ovc_dchg_th: u8)
        ensures
            field(final(self).0, 0, 8) == ovc_dchg_th,
            agrees_outside(old(self).0, final(self).0, 0, 8),
    {
        proof {
            lemma_low_masks();
        }
        self.0 = set_field(self.0, 0, 8, ovc_dchg_th as u16);
    }

    /// Get the charge over-current threshold code
    pub fn get_ovc_chg_th(&self) -> (r: u8)
        ensures
            r == field(self.0, 8, 8),
    {
        proof {
            lemma_low_masks();
        }
        get_field(self.0, 8, 8) as u8
    }

    /// Set the charge over-current threshold code
    pub fn set_ovc_chg_th(&mut self, ovc_chg_th: u8)
        ensures
            field(final(self).0, 8, 8) == ovc_chg_th,
            agrees_outside(old(self).0, final(self).0, 8, 8),
    {
        proof {
            lemma_low_masks();
        }
        self.0 = set_field(self.0, 8, 8, ovc_chg_th as u16);
    }
}

/// Persistent over-current threshold: code in bits 0..8.
#[derive(Clone, Copy, Debug, PartialEq, Eq, Structural)]
pub struct PersistentOvCThreshold(pub u16);

impl PersistentOvCThreshold {
    /// Get the persistent over-current threshold code
    pub fn get_persistent_ovc_th(&self) -> (r: u8)
        ensures
            r == field(self.0, 0, 8),
    {
        proof {
            lemma_low_masks();
        }
        get_field(self.0, 0, 8) as u8
    }

    /// Set the persistent over-current threshold code
    pub fn set_persistent_ovc_th(&mut self, persistent_ovc_th: u8)
        ensures
            field(final(self).0, 0, 8) == persistent_ovc_th,
            agrees_outside(old(self).0, final(self).0, 0, 8),
    {
        proof {
            lemma_low_masks();
        }
        self.0 = set_field(self.0, 0, 8, persistent_ovc_th as u16);
    }
}

/// Persistent over-current threshold: code in bits 0..8.
#[derive(Clone, Copy, Debug, PartialEq, Eq, Structural)]
pub struct PersistentOvCThresholds(pub u16);

impl PersistentOvCThresholds {
    /// Get the persistent over-current threshold code
    pub fn get_persistent_ovc_th(&self) -> (r: u8)
        ensures
            r == field(self.0, 0, 8),
    {
        proof {
            lemma_low_masks();
        }
        get_field(self.0, 0, 8) as u8
    }

    /// Set the persistent over-current threshold code
    pub fn set_persistent_ovc_th(&mut self, persistent_ovc_th: u8)
        ensures
            field(final(self).0, 0, 8) == persistent_ovc_th,
            agrees_outside(old(self).0, final(self).0, 0, 8),
    {
        proof {
            lemma_low_masks();
        }
        self.0 = set_field(self.0, 0, 8, persistent_ovc_th as u16);
    }
}

/// Short circuit thresholds: threshold code in bits 0..4, persistence threshold in bits 4..8.
#[derive(Clone, Copy, Debug, PartialEq, Eq, Structural)]
pub struct SCThreshold(pub u16);

impl SCThreshold {
    /// Get the short circuit threshold code
    pub fn get_sc_th(&self) -> (r: u8)
        ensures
            r == field(self.0, 0, 4),
    {
        proof {
            lemma_low_masks();
        }
        get_field(self.0, 0, 4) as u8
    }

    /// Set the short circuit threshold code
    pub fn set_sc_th(&mut self, sc_th: u8)
        requires
            sc_th <= 15,
        ensures
            field(final(self).0, 0, 4) == sc_th,
            agrees_outside(old(self).0, final(self).0, 0, 4),
    {
        proof {
            lemma_low_masks();
        }
        self.0 = set_field(self.0, 0, 4, sc_th as u16);
    }

    /// Get the short circuit persistence threshold
    pub fn get_sc_persist_th(&self) -> (r: u8)
        ensures
            r == field(self.0, 4, 4),
    {
        proof {
            lemma_low_masks();
        }
        get_field(self.0, 4, 4) as u8
    }

    /// Set the short circuit persistence threshold
    pub fn set_sc_persist_th(&mut self, sc_th: u8)
        requires
            sc_th <= 15,
        ensures
            field(final(self).0, 4, 4) == sc_th,
            agrees_outside(old(self).0, final(self).0, 4, 4),
    {
        proof {
            lemma_low_masks();
        }
        self.0 = set_field(self.0, 4, 4, sc_th as u16);
    }
}

} // verus!
