//! The CFG3_ACT register: balancing and FET activation.
use crate::bitfield::{agrees_outside, bit, field, get_bit, lemma_field_of_zero, set_bit};
use vstd::prelude::*;

verus! {

/// Activation of cell balancing (bits 0..5) and of the charge (bit 5) and discharge (bit 6) FETs.
#[derive(Clone, Copy, Debug, PartialEq, Eq, Structural)]
pub struct Cfg3Act(pub u16);

impl Cfg3Act {
    /// Create a register value with each activation given.
    pub fn new(
        cell_1_bal_en: bool,
        cell_2_bal_en: bool,
        cell_3_bal_en: bool,
        cell_4_bal_en: bool,
        cell_5_bal_en: bool,
        chg_en: bool,
        dischg_en: bool,
    ) -> (r: Self)
        ensures
            bit(r.0, 0) == cell_1_bal_en,
            bit(r.0, 1) == cell_2_bal_en,
            bit(r.0, 2) == cell_3_bal_en,
            bit(r.0, 3) == cell_4_bal_en,
            bit(r.0, 4) == cell_5_bal_en,
            bit(r.0, 5) == chg_en,
            bit(r.0, 6) == dischg_en,
            field(r.0, 7, 9) == 0,
    {
        let mut value = Self(0);
        proof {
            lemma_field_of_zero(7, 9);
        }
        value.set_cell_1_balance_enabled(cell_1_bal_en);
        value.set_cell_2_balance_enabled(cell_2_bal_en);
        value.set_cell_3_balance_enabled(cell_3_bal_en);
        value.set_cell_4_balance_enabled(cell_4_bal_en);
        value.set_cell_5_balance_enabled(cell_5_bal_en);
        value.set_charge_enabled(chg_en);
        value.set_discharge_enabled(dischg_en);
        value
    }

    /// Whether cell 1 balancing is active
    pub fn get_cell_1_balance_enabled(&self) -> (r: bool)
        ensures
            r == bit(self.0, 0),
    {
        get_bit(self.0, 0)
    }

    /// Activate or deactivate cell 1 balancing
    pub fn set_cell_1_balance_enabled(&mut self, enabled: bool)
        ensures
            bit(final(self).0, 0) == enabled,
            agrees_outside(old(self).0, final(self).0, 0, 1),
    {
        self.0 = set_bit(self.0, 0, enabled);
    }

    /// Whether cell 2 balancing is active
    pub fn get_cell_2_balance_enabled(&self) -> (r: bool)
        ensures
            r == bit(self.0, 1),
    {
        get_bit(self.0, 1)
    }

    /// Activate or deactivate cell 2 balancing
    pub fn set_cell_2_balance_enabled(&mut self, enabled: bool)
        ensures
            bit(final(self).0, 1) == enabled,
            agrees_outside(old(self).0, final(self).0, 1, 1),
    {
        self.0 = set_bit(self.0, 1, enabled);
    }

    /// Whether cell 3 balancing is active
    pub fn get_cell_3_balance_enabled(&self) -> (r: bool)
        ensures
            r == bit(self.0, 2),
    {
        get_bit(self.0, 2)
    }

    /// Activate or deactivate cell 3 balancing
    pub fn set_cell_3_balance_enabled(&mut self, enabled: bool)
        ensures
            bit(final(self).0, 2) == enabled,
            agrees_outside(old(self).0, final(self).0, 2, 1),
    {
        self.0 = set_bit(self.0, 2, enabled);
    }

    /// Whether cell 4 balancing is active
    pub fn get_cell_4_balance_enabled(&self) -> (r: bool)
        ensures
            r == bit(self.0, 3),
    {
        get_bit(self.0, 3)
    }

    /// Activate or deactivate cell 4 balancing
    pub fn set_cell_4_balance_enabled(&mut self, enabled: bool)
        ensures
            bit(final(self).0, 3) == enabled,
            agrees_outside(old(self).0, final(self).0, 3, 1),
    {
        self.0 = set_bit(self.0, 3, enabled);
    }

    /// Whether cell 5 balancing is active
    pub fn get_cell_5_balance_enabled(&self) -> (r: bool)
        ensures
            r == bit(self.0, 4),
    {
        get_bit(self.0, 4)
    }

    /// Activate or deactivate cell 5 balancing
    pub fn set_cell_5_balance_enabled(&mut self, enabled: bool)
        ensures
            bit(final(self).0, 4) == enabled,
            agrees_outside(old(self).0, final(self).0, 4, 1),
    {
        self.0 = set_bit(self.0, 4, enabled);
    }

    /// Whether the charge FET is active
    pub fn get_charge_enabled(&self) -> (r: bool)
        ensures
            r == bit(self.0, 5),
    {
        get_bit(self.0, 5)
    }

    /// Activate or deactivate the charge FET
    pub fn set_charge_enabled(&mut self, enabled: bool)
        ensures
            bit(final(self).0, 5) == enabled,
            agrees_outside(old(self).0, final(self).0, 5, 1),
    {
        self.0 = set_bit(self.0, 5, enabled);
    }

    /// Whether the discharge FET is active
    pub fn get_discharge_enabled(&self) -> (r: bool)
        ensures
            r == bit(self.0, 6),
    {
        get_bit(self.0, 6)
    }

    /// Activate or deactivate the discharge FET
    pub fn set_discharge_enabled(&mut self, enabled: bool)
        ensures
            bit(final(self).0, 6) == enabled,
            agrees_outside(old(self).0, final(self).0, 6, 1),
    {
        self.0 = set_bit(self.0, 6, enabled);
    }
}

} // verus!
