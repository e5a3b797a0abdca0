//! The CFG1_FILTERS_CYCLES register: filter times and the measurement cycle period.
use crate::bitfield::{
    agrees_outside, field, get_field, lemma_field_of_zero, lemma_low_masks, lemma_word_2_3_2_5,
    set_field,
};
use vstd::prelude::*;

verus! {

/// Cell voltage filter time, bits 0..2 of CFG1_FILTERS_CYCLES.
#[derive(Clone, Copy, Debug, PartialEq, Eq, Structural)]
pub enum TCellFilter {
    /// 0.8 ms
    T0_8Ms,
    /// 1.31 ms
    T1_31Ms,
    /// 4.38 ms
    T4_38Ms,
    /// 16.67 ms
    T16_67Ms,
}

impl TCellFilter {
    /// The code of the filter time in its register field.
    pub open spec fn code_of(self) -> u16 {
        match self {
            TCellFilter::T0_8Ms => 0,
            TCellFilter::T1_31Ms => 1,
            TCellFilter::T4_38Ms => 2,
            TCellFilter::T16_67Ms => 3,
        }
    }

    /// The code of the filter time in its register field.
    pub fn code(self) -> (r: u16)
        ensures
            r == self.code_of(),
    {
        match self {
            TCellFilter::T0_8Ms => 0,
            TCellFilter::T1_31Ms => 1,
            TCellFilter::T4_38Ms => 2,
            TCellFilter::T16_67Ms => 3,
        }
    }

    /// The filter time of a field code. Codes above 3 are reserved and read as the longest time.
    pub fn from_code(code: u16) -> (r: Self)
        ensures
            r.code_of() == if code > 3 {
                3
            } else {
                code
            },
    {
        if code == 0 {
            TCellFilter::T0_8Ms
        } else if code == 1 {
            TCellFilter::T1_31Ms
        } else if code == 2 {
            TCellFilter::T4_38Ms
        } else {
            TCellFilter::T16_67Ms
        }
    }
}

/// Short circuit filter time, bits 2..5 of CFG1_FILTERS_CYCLES.
#[derive(Clone, Copy, Debug, PartialEq, Eq, Structural)]
pub enum TSCFilter {
    /// 32 us
    T32us,
    /// 64 us
    T64us,
    /// 128 us
    T128us,
    /// 256 us
    T256us,
    /// 512 us
    T512us,
}

impl TSCFilter {
    /// The code of the filter time in its register field.
    pub open spec fn code_of(self) -> u16 {
        match self {
            TSCFilter::T32us => 0,
            TSCFilter::T64us => 1,
            TSCFilter::T128us => 2,
            TSCFilter::T256us => 3,
            TSCFilter::T512us => 4,
        }
    }

    /// The code of the filter time in its register field.
    pub fn code(self) -> (r: u16)
        ensures
            r == self.code_of(),
    {
        match self {
            TSCFilter::T32us => 0,
            TSCFilter::T64us => 1,
            TSCFilter::T128us => 2,
            TSCFilter::T256us => 3,
            TSCFilter::T512us => 4,
        }
    }

    /// The filter time of a field code. Codes above 4 are reserved and read as the longest time.
    pub fn from_code(code: u16) -> (r: Self)
        ensures
            r.code_of() == if code > 4 {
                4
            } else {
                code
            },
    {
        if code == 0 {
            TSCFilter::T32us
        } else if code == 1 {
            TSCFilter::T64us
        } else if code == 2 {
            TSCFilter::T128us
        } else if code == 3 {
            TSCFilter::T256us
        } else {
            TSCFilter::T512us
        }
    }
}

/// Current filter time, bits 5..7 of CFG1_FILTERS_CYCLES.
#[derive(Clone, Copy, Debug, PartialEq, Eq, Structural)]
pub enum TCurFilter {
    /// 4.22 ms
    T4_22Ms,
    /// 8.44 ms
    T8_44Ms,
    /// 16.9 ms
    T16_9Ms,
    /// 33.8 ms
    T33_8Ms,
}

impl TCurFilter {
    /// The code of the filter time in its register field.
    pub open spec fn code_of(self) -> u16 {
        match self {
            TCurFilter::T4_22Ms => 0,
            TCurFilter::T8_44Ms => 1,
            TCurFilter::T16_9Ms => 2,
            TCurFilter::T33_8Ms => 3,
        }
    }

    /// The code of the filter time in its register field.
    pub fn code(self) -> (r: u16)
        ensures
            r == self.code_of(),
    {
        match self {
            TCurFilter::T4_22Ms => 0,
            TCurFilter::T8_44Ms => 1,
            TCurFilter::T16_9Ms => 2,
            TCurFilter::T33_8Ms => 3,
        }
    }

    /// The filter time of a field code. Codes above 3 are reserved and read as the longest time.
    pub fn from_code(code: u16) -> (r: Self)
        ensures
            r.code_of() == if code > 3 {
                3
            } else {
                code
            },
    {
        if code == 0 {
            TCurFilter::T4_22Ms
        } else if code == 1 {
            TCurFilter::T8_44Ms
        } else if code == 2 {
            TCurFilter::T16_9Ms
        } else {
            TCurFilter::T33_8Ms
        }
    }
}

/// The measurement cycle period in steps of 10 ms, bits 7..12 of CFG1_FILTERS_CYCLES.
/// A period of 0 disables the measurements.
#[derive(Clone, Copy, Debug, PartialEq, Eq, Structural)]
pub struct TMeasCycle(pub u8);

impl TMeasCycle {
    /// The period that disables the measurements
    pub fn disabled() -> (r: Self)
        ensures
            r.0 == 0,
    {
        Self(0)
    }

    /// The period nearest below `value` ms, in steps of 10 ms.
    pub fn new_ms(value: u16) -> (r: Self)
        requires
            10 <= value <= 300,
        ensures
            r.0 == value / 10,
    {
        Self((value / 10) as u8)
    }

    /// Whether this period disables the measurements
    pub fn is_disabled(&self) -> (r: bool)
        ensures
            r == (self.0 == 0),
    {
        self.0 == 0
    }

    /// The period in ms
    pub fn period_ms(&self) -> (r: u16)
        ensures
            r == self.0 * 10,
    {
        self.0 as u16 * 10
    }
}

/// Filter times and measurement cycle: cell filter in bits 0..2, short circuit filter in bits 2..5, current filter in bits 5..7, cycle period in bits 7..12.
#[derive(Clone, Copy, Debug, PartialEq, Eq, Structural)]
pub struct Cfg1FiltersCycles(pub u16);

impl Cfg1FiltersCycles {
    /// Create a register value from its four fields.
    pub fn new(
        tcell_filter: TCellFilter,
        t_sc_filter: TSCFilter,
        t_cur_filter: TCurFilter,
        t_meas_cycle: TMeasCycle,
    ) -> (r: Self)
        requires
            t_meas_cycle.0 < 32,
        ensures
            field(r.0, 0, 2) == tcell_filter.code_of(),
            field(r.0, 2, 3) == t_sc_filter.code_of(),
            field(r.0, 5, 2) == t_cur_filter.code_of(),
            field(r.0, 7, 5) == t_meas_cycle.0,
            field(r.0, 12, 4) == 0,
    {
        let mut value = Self(0);
        proof {
            lemma_field_of_zero(12, 4);
        }
        value.set_t_cell_filter(tcell_filter);
        value.set_t_sc_filter(t_sc_filter);
        value.set_t_curr_filter(t_cur_filter);
        value.set_t_meas_cycle(t_meas_cycle);
        value
    }

    /// The power-on configuration: 4.38 ms cell filter, 128 us short circuit filter,
    /// 16.9 ms current filter and a 300 ms measurement cycle.
    pub fn default() -> (r: Self)
        ensures
            field(r.0, 0, 2) == TCellFilter::T4_38Ms.code_of(),
            field(r.0, 2, 3) == TSCFilter::T128us.code_of(),
            field(r.0, 5, 2) == TCurFilter::T16_9Ms.code_of(),
            field(r.0, 7, 5) == 30,
            field(r.0, 12, 4) == 0,
            r.0 == 0x0F4A,
    {
        let r = Self::new(
            TCellFilter::T4_38Ms,
            TSCFilter::T128us,
            TCurFilter::T16_9Ms,
            TMeasCycle::new_ms(300),
        );
        proof {
            lemma_word_2_3_2_5(r.0, 2, 2, 2, 30);
        }
        r
    }

    /// The configuration that stops the measurement cycle.
    pub fn deactivate() -> (r: Self)
        ensures
            r.0 == 0,
    {
        Self(0)
    }

    /// The cell voltage filter time
    pub fn get_t_cell_filter(&self) -> (r: TCellFilter)
        ensures
            r.code_of() == field(self.0, 0, 2),
    {
        proof {
            lemma_low_masks();
        }
        TCellFilter::from_code(get_field(self.0, 0, 2))
    }

    /// Set the cell voltage filter time
    pub fn set_t_cell_filter(&mut self, filter: TCellFilter)
        ensures
            field(final(self).0, 0, 2) == filter.code_of(),
            agrees_outside(old(self).0, final(self).0, 0, 2),
    {
        proof {
            lemma_low_masks();
        }
        self.0 = set_field(self.0, 0, 2, filter.code());
    }

    /// The short circuit filter time; the reserved codes read as the longest time.
    pub fn get_t_sc_filter(&self) -> (r: TSCFilter)
        ensures
            r.code_of() == if field(self.0, 2, 3) > 4 {
                4
            } else {
                field(self.0, 2, 3)
            },
    {
        proof {
            lemma_low_masks();
        }
        TSCFilter::from_code(get_field(self.0, 2, 3))
    }

    /// Set the short circuit filter time
    pub fn set_t_sc_filter(&mut self, filter: TSCFilter)
        ensures
            field(final(self).0, 2, 3) == filter.code_of(),
            agrees_outside(old(self).0, final(self).0, 2, 3),
    {
        proof {
            lemma_low_masks();
        }
        self.0 = set_field(self.0, 2, 3, filter.code());
    }

    /// The current filter time
    pub fn get_t_curr_filter(&self) -> (r: TCurFilter)
        ensures
            r.code_of() == field(self.0, 5, 2),
    {
        proof {
            lemma_low_masks();
        }
        TCurFilter::from_code(get_field(self.0, 5, 2))
    }

    /// Set the current filter time
    pub fn set_t_curr_filter(&mut self, filter: TCurFilter)
        ensures
            field(final(self).0, 5, 2) == filter.code_of(),
            agrees_outside(old(self).0, final(self).0, 5, 2),
    {
        proof {
            lemma_low_masks();
        }
        self.0 = set_field(self.0, 5, 2, filter.code());
    }

    /// The measurement cycle period
    pub fn get_t_meas_cycle(&self) -> (r: TMeasCycle)
        ensures
            r.0 == field(self.0, 7, 5),
    {
        proof {
            lemma_low_masks();
        }
        TMeasCycle(get_field(self.0, 7, 5) as u8)
    }

    /// Set the measurement cycle period
    pub fn set_t_meas_cycle(&mut self, cycle: TMeasCycle)
        requires
            cycle.0 < 32,
        ensures
            field(final(self).0, 7, 5) == cycle.0,
            agrees_outside(old(self).0, final(self).0, 7, 5),
    {
        proof {
            lemma_low_masks();
        }
        self.0 = set_field(self.0, 7, 5, cycle.0 as u16);
    }
}

} // verus!
