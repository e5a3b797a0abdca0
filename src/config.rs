//! # Configuration
//! High-level configuration of the L9961: thresholds in millivolts and the measurement cycle,
//! with reasonable defaults, and how they become the values of the threshold
//! registers. Each register value is the code of the requested value (see `conversions`):
//! the largest code whose whole millivolts do not exceed the request.
use crate::bitfield::field;
use crate::conversions::{
    cell_voltage_threshold_code_from_mv, code_of, ntc_voltage_code_from_mv,
    pack_voltage_threshold_code_from_mv, CELL_THRESHOLD_STEP_UV, MAX_CODE_12_BIT, NTC_STEP_UV,
    PACK_THRESHOLD_STEP_UV,
};
use crate::registers::{
    Cfg1FiltersCycles, Registers, TCellFilter, TCurFilter, TSCFilter, VBOvTh, VBSumMaxDiffTh, VBUvTh, VCellBalUvDeltaTh, VCellOvTh,
    VCellSevereDeltaThrs, VCellUvTh, VNTCOTTh, VNTCSevereOTTh, VNTCUTTh,
};
use vstd::prelude::*;

verus! {

/// The code of a cell voltage threshold of `mv` millivolts.
pub open spec fn cell_code(mv: u16) -> u16 {
    code_of(mv as int, CELL_THRESHOLD_STEP_UV as int, 255) as u16
}

/// The code of a pack voltage threshold of `mv` millivolts.
pub open spec fn pack_code(mv: u16) -> u16 {
    code_of(mv as int, PACK_THRESHOLD_STEP_UV as int, 255) as u16
}

/// The code of an NTC voltage threshold of `mv` millivolts.
pub open spec fn ntc_code(mv: u16) -> u16 {
    code_of(mv as int, NTC_STEP_UV as int, MAX_CODE_12_BIT as int) as u16
}

/// The word of a threshold register with an 8-bit code and a fault counter threshold above it.
pub open spec fn counted_word(code: u16, counter: u8) -> u16 {
    (code + counter * 256) as u16
}

/// The word of a threshold register with a 12-bit code and a fault counter threshold above it.
pub open spec fn ntc_counted_word(code: u16, counter: u8) -> u16 {
    (code + counter * 4096) as u16
}

/// The register writes that program the voltage thresholds `c`, in the order they are sent.
pub open spec fn voltage_threshold_writes(c: VoltageThresholds) -> Seq<(Registers, u16)> {
    let n = c.fault_counter_threshold@;
    seq![
        (Registers::VCellOvTh, counted_word(cell_code(c.cell_over_voltage_threshold_mv), n)),
        (Registers::VCellUvTh, counted_word(cell_code(c.cell_under_voltage_threshold_mv), n)),
        (
            Registers::VCellBalUvDeltaTh,
            counted_word(cell_code(c.cell_balancing_under_voltage_delta_threshold_mv), n),
        ),
        (
            Registers::VCellSevereDeltaThrs,
            (cell_code(c.cell_severe_over_voltage_delta_threshold_mv) + cell_code(
                c.cell_severe_under_voltage_delta_threshold_mv,
            ) * 256) as u16,
        ),
        (Registers::VBOvTh, counted_word(pack_code(c.pack_over_voltage_threshold_mv), n)),
        (Registers::VBUvTh, counted_word(pack_code(c.pack_under_voltage_threshold_mv), n)),
        (Registers::VBSumMaxDiffTh, pack_code(c.max_pack_cell_sum_delta_mv)),
    ]
}

/// The register writes that program the NTC thresholds `c`, in the order they are sent.
pub open spec fn ntc_threshold_writes(c: NtcThresholds) -> Seq<(Registers, u16)> {
    let n = c.fault_counter_threshold@;
    seq![
        (Registers::VNTCOTTh, ntc_counted_word(ntc_code(c.over_temp_threshold_mv), n)),
        (Registers::VNTCUTTh, ntc_counted_word(ntc_code(c.under_temp_threshold_mv), n)),
        (Registers::VNTCSevereOTTh, ntc_code(c.severe_over_temp_delta_threshold_mv)),
    ]
}

/// The register writes that program the thresholds of `c`: the voltage thresholds, then the
/// NTC thresholds.
pub open spec fn config_threshold_writes(c: Config) -> Seq<(Registers, u16)> {
    voltage_threshold_writes(c.voltage_thresholds) + ntc_threshold_writes(c.ntc_thresholds)
}

/// Newtype for the counter threshold value to ensure a valid range.
/// The counter threshold is a 4-bit value used to determine how many times a fault condition must occur before the fault is triggered.
/// Default value is 10.
#[derive(Clone, Copy, Debug, PartialEq, Eq)]
pub struct CounterThreshold(u8);

impl View for CounterThreshold {
    type V = u8;

    closed spec fn view(&self) -> u8 {
        self.0
    }
}

impl CounterThreshold {
    #[verifier::type_invariant]
    spec fn fits(self) -> bool {
        self.0 < 16
    }

    /// Create a new CounterThreshold with the given value; `None` when it does not fit 4 bits.
    pub fn new(value: u8) -> (r: Option<Self>)
        ensures
            r.is_some() == (value < 16),
            r matches Some(t) ==> t@ == value,
    {
        if value < 16 {
            Some(CounterThreshold(value))
        } else {
            None
        }
    }

    /// Create a new CounterThreshold with the default value of 10
    pub fn default() -> (r: Self)
        ensures
            r@ == 10,
    {
        CounterThreshold(10)
    }

    /// Get the internal value
    pub fn value(&self) -> (r: u8)
        ensures
            r == self@,
            r < 16,
    {
        proof {
            use_type_invariant(self);
        }
        self.0
    }
}

/// Voltage threshold configuration struct
#[derive(Clone, Copy, Debug, PartialEq, Eq)]
pub struct VoltageThresholds {
    /// Cell over-voltage threshold in mV (19.52 mV resolution)
    pub cell_over_voltage_threshold_mv: u16,
    /// Cell severe over-voltage delta threshold in mV (19.52 mV resolution)
    pub cell_severe_over_voltage_delta_threshold_mv: u16,
    /// Cell under-voltage threshold in mV (19.52 mV resolution)
    pub cell_under_voltage_threshold_mv: u16,
    /// Cell severe under-voltage delta threshold in mV (19.52 mV resolution)
    pub cell_severe_under_voltage_delta_threshold_mv: u16,
    /// Cell balancing under-voltage delta threshold in mV (19.52 mV resolution)
    pub cell_balancing_under_voltage_delta_threshold_mv: u16,
    /// Largest allowed difference between the pack voltage and the sum of the cells, in mV
    /// (97.6 mV resolution)
    pub max_pack_cell_sum_delta_mv: u16,
    /// Pack over-voltage threshold in mV (97.6 mV resolution)
    pub pack_over_voltage_threshold_mv: u16,
    /// Pack under-voltage threshold in mV (97.6 mV resolution)
    pub pack_under_voltage_threshold_mv: u16,
    /// Number of measurement cycles where thresholds must be exceeded before triggering a fault
    pub fault_counter_threshold: CounterThreshold,
}

impl VoltageThresholds {
    /// The default voltage thresholds.
    pub fn default() -> (r: Self)
        ensures
            r.is_default(),
    {
        VoltageThresholds {
            cell_over_voltage_threshold_mv: 4196,
            cell_severe_over_voltage_delta_threshold_mv: 4392,
            cell_under_voltage_threshold_mv: 2986,
            cell_severe_under_voltage_delta_threshold_mv: 2693,
            cell_balancing_under_voltage_delta_threshold_mv: 3181,
            max_pack_cell_sum_delta_mv: 995,
            pack_over_voltage_threshold_mv: 21000,
            pack_under_voltage_threshold_mv: 15000,
            fault_counter_threshold: CounterThreshold::default(),
        }
    }

    /// The default voltage thresholds, as `default`.
    pub fn new() -> (r: Self)
        ensures
            r.is_default(),
    {
        Self::default()
    }

    /// These are the default voltage thresholds.
    pub open spec fn is_default(self) -> bool {
        &&& self.cell_over_voltage_threshold_mv == 4196
        &&& self.cell_severe_over_voltage_delta_threshold_mv == 4392
        &&& self.cell_under_voltage_threshold_mv == 2986
        &&& self.cell_severe_under_voltage_delta_threshold_mv == 2693
        &&& self.cell_balancing_under_voltage_delta_threshold_mv == 3181
        &&& self.max_pack_cell_sum_delta_mv == 995
        &&& self.pack_over_voltage_threshold_mv == 21000
        &&& self.pack_under_voltage_threshold_mv == 15000
        &&& self.fault_counter_threshold@ == 10
    }

    /// The cell over-voltage register value of this configuration
    pub fn cell_over_voltage_configuration(&self) -> (r: VCellOvTh)
        ensures
            r.0 == counted_word(cell_code(self.cell_over_voltage_threshold_mv), self.fault_counter_threshold@),
            field(r.0, 8, 4) == self.fault_counter_threshold@,
            field(r.0, 12, 4) == 0,
    {
        let code = cell_voltage_threshold_code_from_mv(self.cell_over_voltage_threshold_mv);
        VCellOvTh::new(code, self.fault_counter_threshold.value()).unwrap()
    }

    /// The cell under-voltage register value of this configuration
    pub fn cell_under_voltage_configuration(&self) -> (r: VCellUvTh)
        ensures
            r.0 == counted_word(cell_code(self.cell_under_voltage_threshold_mv), self.fault_counter_threshold@),
            field(r.0, 8, 4) == self.fault_counter_threshold@,
            field(r.0, 12, 4) == 0,
    {
        let code = cell_voltage_threshold_code_from_mv(self.cell_under_voltage_threshold_mv);
        VCellUvTh::new(code, self.fault_counter_threshold.value()).unwrap()
    }

    /// The cell balancing under-voltage register value of this configuration
    pub fn cell_balancing_under_voltage_delta_configuration(&self) -> (r: VCellBalUvDeltaTh)
        ensures
            r.0 == counted_word(
                cell_code(self.cell_balancing_under_voltage_delta_threshold_mv),
                self.fault_counter_threshold@,
            ),
            field(r.0, 8, 4) == self.fault_counter_threshold@,
            field(r.0, 12, 4) == 0,
    {
        let code = cell_voltage_threshold_code_from_mv(
            self.cell_balancing_under_voltage_delta_threshold_mv,
        );
        VCellBalUvDeltaTh::new(code, self.fault_counter_threshold.value()).unwrap()
    }

    /// The cell severe voltage register value of this configuration
    pub fn cell_severe_voltage_threshold_delta_configuration(&self) -> (r: VCellSevereDeltaThrs)
        ensures
            field(r.0, 0, 8) == cell_code(self.cell_severe_over_voltage_delta_threshold_mv),
            field(r.0, 8, 8) == cell_code(self.cell_severe_under_voltage_delta_threshold_mv),
            r.0 == cell_code(self.cell_severe_over_voltage_delta_threshold_mv) + cell_code(
                self.cell_severe_under_voltage_delta_threshold_mv,
            ) * 256,
    {
        let over = cell_voltage_threshold_code_from_mv(
            self.cell_severe_over_voltage_delta_threshold_mv,
        );
        let under = cell_voltage_threshold_code_from_mv(
            self.cell_severe_under_voltage_delta_threshold_mv,
        );
        VCellSevereDeltaThrs::new(over, under)
    }

    /// The pack over-voltage register value of this configuration
    pub fn pack_over_voltage_threshold(&self) -> (r: VBOvTh)
        ensures
            r.0 == counted_word(pack_code(self.pack_over_voltage_threshold_mv), self.fault_counter_threshold@),
            field(r.0, 8, 4) == self.fault_counter_threshold@,
            field(r.0, 12, 4) == 0,
    {
        let code = pack_voltage_threshold_code_from_mv(self.pack_over_voltage_threshold_mv);
        VBOvTh::new(code, self.fault_counter_threshold.value()).unwrap()
    }

    /// The pack under-voltage register value of this configuration
    pub fn pack_under_voltage_threshold(&self) -> (r: VBUvTh)
        ensures
            r.0 == counted_word(pack_code(self.pack_under_voltage_threshold_mv), self.fault_counter_threshold@),
            field(r.0, 8, 4) == self.fault_counter_threshold@,
            field(r.0, 12, 4) == 0,
    {
        let code = pack_voltage_threshold_code_from_mv(self.pack_under_voltage_threshold_mv);
        VBUvTh::new(code, self.fault_counter_threshold.value()).unwrap()
    }

    /// The pack versus cell sum register value of this configuration
    pub fn pack_vs_cell_sum_delta_threshold(&self) -> (r: VBSumMaxDiffTh)
        ensures
            r.0 == pack_code(self.max_pack_cell_sum_delta_mv),
    {
        VBSumMaxDiffTh(pack_voltage_threshold_code_from_mv(self.max_pack_cell_sum_delta_mv) as u16)
    }
}

/// Temperature threshold configuration struct
#[derive(Clone, Copy, Debug, PartialEq, Eq)]
pub struct NtcThresholds {
    /// NTC over temperature threshold in mV
    pub over_temp_threshold_mv: u16,
    /// NTC severe over temperature delta threshold in mV
    pub severe_over_temp_delta_threshold_mv: u16,
    /// NTC under temperature threshold in mV
    pub under_temp_threshold_mv: u16,
    /// NTC fault counter threshold
    pub fault_counter_threshold: CounterThreshold,
}

impl NtcThresholds {
    /// The default NTC thresholds.
    pub fn new() -> (r: Self)
        ensures
            r.over_temp_threshold_mv == 0,
            r.severe_over_temp_delta_threshold_mv == 3300,
            r.under_temp_threshold_mv == 3300,
            r.fault_counter_threshold@ == 10,
    {
        Self {
            over_temp_threshold_mv: 0,
            severe_over_temp_delta_threshold_mv: 3300,
            under_temp_threshold_mv: 3300,
            fault_counter_threshold: CounterThreshold::default(),
        }
    }

    /// The NTC over-temperature register value of this configuration
    pub fn over_temperature_configuration(&self) -> (r: VNTCOTTh)
        ensures
            r.0 == ntc_counted_word(ntc_code(self.over_temp_threshold_mv), self.fault_counter_threshold@),
            field(r.0, 12, 4) == self.fault_counter_threshold@,
    {
        let code = ntc_voltage_code_from_mv(self.over_temp_threshold_mv);
        VNTCOTTh::new(code, self.fault_counter_threshold.value()).unwrap()
    }

    /// The NTC under-temperature register value of this configuration
    pub fn under_temperature_configuration(&self) -> (r: VNTCUTTh)
        ensures
            r.0 == ntc_counted_word(ntc_code(self.under_temp_threshold_mv), self.fault_counter_threshold@),
            field(r.0, 12, 4) == self.fault_counter_threshold@,
    {
        let code = ntc_voltage_code_from_mv(self.under_temp_threshold_mv);
        VNTCUTTh::new(code, self.fault_counter_threshold.value()).unwrap()
    }

    /// The NTC severe over-temperature register value of this configuration
    pub fn severe_over_temp_delta_configuration(&self) -> (r: VNTCSevereOTTh)
        ensures
            r.0 == ntc_code(self.severe_over_temp_delta_threshold_mv),
            field(r.0, 12, 4) == 0,
    {
        let code = ntc_voltage_code_from_mv(self.severe_over_temp_delta_threshold_mv);
        VNTCSevereOTTh::new(code).unwrap()
    }
}

/// Cell threshold configuration, built from defaults by replacing one value at a time.
#[derive(Clone, Copy, Debug, PartialEq, Eq)]
pub struct CellThresholds {
    /// Cell over-voltage threshold in mV
    pub cell_over_voltage_threshold_mv: u16,
    /// Cell severe over-voltage delta threshold in mV
    pub cell_severe_over_voltage_delta_threshold_mv: u16,
    /// Cell under-voltage threshold in mV
    pub cell_under_voltage_threshold_mv: u16,
    /// Cell severe under-voltage threshold in mV
    pub cell_severe_under_voltage_threshold_mv: u16,
    /// Cell balancing under-voltage delta threshold in mV
    pub cell_balancing_under_voltage_delta_threshold_mv: u16,
    /// Number of measurement cycles where thresholds must be exceeded before triggering a fault
    pub fault_counter_threshold: CounterThreshold,
    /// Largest allowed difference between the pack voltage and the sum of the cells, in mV
    pub max_pack_cell_sum_delta_mv: u16,
}

impl CellThresholds {
    /// The default cell thresholds.
    pub fn new() -> (r: Self)
        ensures
            r.cell_over_voltage_threshold_mv == 4196,
            r.cell_severe_over_voltage_delta_threshold_mv == 4392,
            r.cell_under_voltage_threshold_mv == 2986,
            r.cell_severe_under_voltage_threshold_mv == 2693,
            r.cell_balancing_under_voltage_delta_threshold_mv == 3181,
            r.fault_counter_threshold@ == 10,
            r.max_pack_cell_sum_delta_mv == 995,
    {
        CellThresholds {
            cell_over_voltage_threshold_mv: 4196,
            cell_severe_over_voltage_delta_threshold_mv: 4392,
            cell_under_voltage_threshold_mv: 2986,
            cell_severe_under_voltage_threshold_mv: 2693,
            cell_balancing_under_voltage_delta_threshold_mv: 3181,
            fault_counter_threshold: CounterThreshold::default(),
            max_pack_cell_sum_delta_mv: 995,
        }
    }

    /// These thresholds with the cell over-voltage threshold replaced.
    pub fn with_cell_over_voltage_threshold_mv(self, voltage_mv: u16) -> (r: Self)
        ensures
            r == (CellThresholds { cell_over_voltage_threshold_mv: voltage_mv, ..self }),
    {
        let mut r = self;
        r.cell_over_voltage_threshold_mv = voltage_mv;
        r
    }

    /// These thresholds with the cell severe over-voltage threshold replaced.
    pub fn with_cell_severe_over_voltage_threshold_mv(self, voltage_mv: u16) -> (r: Self)
        ensures
            r == (CellThresholds { cell_severe_over_voltage_delta_threshold_mv: voltage_mv, ..self }),
    {
        let mut r = self;
        r.cell_severe_over_voltage_delta_threshold_mv = voltage_mv;
        r
    }

    /// These thresholds with the cell under-voltage threshold replaced.
    pub fn with_cell_under_voltage_threshold_mv(self, voltage_mv: u16) -> (r: Self)
        ensures
            r == (CellThresholds { cell_under_voltage_threshold_mv: voltage_mv, ..self }),
    {
        let mut r = self;
        r.cell_under_voltage_threshold_mv = voltage_mv;
        r
    }

    /// These thresholds with the cell severe under-voltage threshold replaced.
    pub fn with_cell_severe_under_voltage_threshold_mv(self, voltage_mv: u16) -> (r: Self)
        ensures
            r == (CellThresholds { cell_severe_under_voltage_threshold_mv: voltage_mv, ..self }),
    {
        let mut r = self;
        r.cell_severe_under_voltage_threshold_mv = voltage_mv;
        r
    }

    /// These thresholds with the fault counter threshold replaced; `None` when it does not
    /// fit 4 bits.
    pub fn with_fault_counter_threshold(self, threshold: u8) -> (r: Option<Self>)
        ensures
            r.is_some() == (threshold < 16),
            r matches Some(t) ==> t.fault_counter_threshold@ == threshold && t == (CellThresholds {
                fault_counter_threshold: t.fault_counter_threshold,
                ..self
            }),
    {
        match CounterThreshold::new(threshold) {
            Some(counter) => {
                let mut r = self;
                r.fault_counter_threshold = counter;
                Some(r)
            },
            None => None,
        }
    }

    /// These thresholds with the largest pack versus cell sum difference replaced.
    pub fn with_max_pack_cell_sum_delta_mv(self, delta_mv: u16) -> (r: Self)
        ensures
            r == (CellThresholds { max_pack_cell_sum_delta_mv: delta_mv, ..self }),
    {
        let mut r = self;
        r.max_pack_cell_sum_delta_mv = delta_mv;
        r
    }
}

/// Configuration struct for the L9961
#[derive(Clone, Copy, Debug, PartialEq, Eq)]
pub struct Config {
    /// I2C address of the l9961 device
    pub address: u8,
    /// Configuration block for cell and pack voltage thresholds
    pub voltage_thresholds: VoltageThresholds,
    /// Configuration block for NTC monitoring thresholds
    pub ntc_thresholds: NtcThresholds,
    /// Configuration block the timing of measurements
    pub measurement_cycles: Cfg1FiltersCycles,
}

impl Config {
    /// Create a new L9961 Config with default address, voltage thresholds, NTC thresholds, and measurement cycles
    pub fn default() -> (r: Self)
        ensures
            r.address == 0x49,
            r.voltage_thresholds.is_default(),
            r.ntc_thresholds.over_temp_threshold_mv == 0,
            r.ntc_thresholds.severe_over_temp_delta_threshold_mv == 3300,
            r.ntc_thresholds.under_temp_threshold_mv == 3300,
            r.ntc_thresholds.fault_counter_threshold@ == 10,
            r.measurement_cycles.0 == 0x0F4A,
            field(r.measurement_cycles.0, 0, 2) == TCellFilter::T4_38Ms.code_of(),
            field(r.measurement_cycles.0, 2, 3) == TSCFilter::T128us.code_of(),
            field(r.measurement_cycles.0, 5, 2) == TCurFilter::T16_9Ms.code_of(),
            field(r.measurement_cycles.0, 7, 5) == 30,
    {
        Self {
            address: 0x49,
            voltage_thresholds: VoltageThresholds::new(),
            ntc_thresholds: NtcThresholds::new(),
            measurement_cycles: Cfg1FiltersCycles::default(),
        }
    }
}

} // verus!
