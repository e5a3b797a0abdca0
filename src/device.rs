//! # The L9961 driver
//! Owns the bus to one L9961 and gives typed access to its registers. Every register access
//! is one bus transaction; the driver keeps, as ghost state, the list of transactions it has
//! handed to the bus, and each operation states which ones it adds.
use crate::acquisition::{timeout_of, Event, MeasurementCycle, Phase, Step};
use crate::measurement::zero_measurement;
use crate::bitfield::field;
use crate::bus::{
    bus_write, bus_write_read, words_from_be_bytes, words_of, write_frame, write_frame_of, BusRequest,
};
use crate::config::{
    config_threshold_writes, ntc_threshold_writes, voltage_threshold_writes, Config, NtcThresholds,
    VoltageThresholds,
};
use crate::error::Error;
use crate::registers::{
    CCAccLsbCntr, Cfg1FiltersCycles, Cfg2Enables, Cfg3Act, ChipID, CsaGainFactor, CurrMsk, DevAddr,
    DiagCurr, DiagOvOtUt, DiagUv, DieTemp, NtcGpio, OvCThresholds, PersistentOvCThresholds,
    Registers, SCThreshold, ToFaultnMsk, ToFuseRstMask, ToPrdrvBalMask, VBOvTh, VBSumMaxDiffTh,
    VBUvTh, VCell, VCell1Faults, VCellBalUvDeltaTh, VCellOvTh, VCellSevereDeltaThrs, VCellSum,
    VCellUvTh, VNTCOTTh, VNTCSevereOTTh, VNTCUTTh, VB,
};
use vstd::prelude::*;

verus! {

/// Largest number of registers read in one transaction: the measurement block.
pub const MAX_BURST_REGISTERS: usize = 9;

/// NVM command that uploads the configuration to the NVM.
pub const NVM_WRITE_READ_CODE_CMD_UPLOAD: u16 = 0xAAAA;

/// NVM command that downloads the configuration from the NVM.
pub const NVM_WRITE_READ_CODE_CMD_DOWNLOAD: u16 = 0x5555;

/// Value that triggers a device command through a VCELL register.
pub const CMD_VAL: u16 = 0x2000;

/// L9961 Industrial BMS Driver
pub struct L9961<I2C> {
    i2c: I2C,
    address: u8,
    config: Config,
    cell_count: u8,
    requests: Ghost<Seq<BusRequest>>,
    answers: Ghost<Seq<Seq<u8>>>,
    outcomes: Ghost<Seq<bool>>,
}

/// `request` writes `value` to `register` of the device at `address`.
pub open spec fn is_write_of(request: BusRequest, address: u8, register: Registers, value: u16) -> bool {
    match request {
        BusRequest::Write { address: a, frame } => a == address && frame@ == write_frame_of(
            register,
            value,
        ),
        _ => false,
    }
}

/// The request that reads `count` registers from `register` of the device at `address`.
pub open spec fn read_of(address: u8, register: Registers, count: usize) -> BusRequest {
    BusRequest::Read { address, register: register.address_of(), len: (2 * count) as usize }
}

/// The configuration and the cell count are the same.
pub open spec fn kept<I2C>(before: L9961<I2C>, after: L9961<I2C>) -> bool {
    &&& after.configuration() == before.configuration()
    &&& after.cells() == before.cells()
}

/// `after` has the outcome of one more transaction than `before`.
pub open spec fn one_more_outcome<I2C>(before: L9961<I2C>, after: L9961<I2C>) -> bool {
    &&& after.outcomes().len() == before.outcomes().len() + 1
    &&& after.outcomes().drop_last() == before.outcomes()
}

/// `r` is what the last transaction gave: `Ok` exactly when the bus completed it, and otherwise
/// the bus error.
pub open spec fn bus_result<I2C, T>(after: L9961<I2C>, r: Result<T, Error>) -> bool {
    &&& r.is_ok() == after.outcomes().last()
    &&& r matches Err(e) ==> e matches Error::I2CError(_)
}

/// `after` is `before` once it has handed the bus a read of `count` registers from `register`.
pub open spec fn sent_read<I2C>(
    before: L9961<I2C>,
    after: L9961<I2C>,
    register: Registers,
    count: usize,
) -> bool {
    &&& after.requests() == before.requests().push(
        read_of(before.device_address(), register, count),
    )
    &&& one_more_outcome(before, after)
    &&& after.device_address() == before.device_address()
    &&& kept(before, after)
}

/// `after` is `before` once it has handed the bus a write of `value` to `register` of the
/// device at `address`; the driver's own address may have changed.
pub open spec fn sent_write_to<I2C>(
    before: L9961<I2C>,
    after: L9961<I2C>,
    address: u8,
    register: Registers,
    value: u16,
) -> bool {
    &&& after.requests().len() == before.requests().len() + 1
    &&& after.requests().drop_last() == before.requests()
    &&& is_write_of(after.requests().last(), address, register, value)
    &&& one_more_outcome(before, after)
    &&& after.answers() == before.answers()
    &&& kept(before, after)
}

/// `after` is `before` once it has handed the bus a write of `value` to `register`.
pub open spec fn sent_write<I2C>(
    before: L9961<I2C>,
    after: L9961<I2C>,
    register: Registers,
    value: u16,
) -> bool {
    &&& sent_write_to(before, after, before.device_address(), register, value)
    &&& after.device_address() == before.device_address()
}

/// `after` is `before` once it has handed the bus the writes `writes`, in order.
pub open spec fn sent_writes<I2C>(
    before: L9961<I2C>,
    after: L9961<I2C>,
    writes: Seq<(Registers, u16)>,
) -> bool {
    &&& after.requests().len() == before.requests().len() + writes.len()
    &&& after.requests().subrange(0, before.requests().len() as int) == before.requests()
    &&& forall|k: int|
        0 <= k < writes.len() ==> is_write_of(
            #[trigger] after.requests()[before.requests().len() + k],
            before.device_address(),
            writes[k].0,
            writes[k].1,
        )
    &&& after.outcomes().len() == before.outcomes().len() + writes.len()
    &&& after.outcomes().subrange(0, before.outcomes().len() as int) == before.outcomes()
    &&& after.device_address() == before.device_address()
    &&& after.answers() == before.answers()
    &&& kept(before, after)
}

/// `after` is `before` once it has handed the bus the first `k` of `writes`, in order, where
/// the bus completed every one of them but the last, and the sending stopped at the first it
/// did not complete. `r` is `Ok` exactly when the bus completed all of `writes`, and otherwise
/// the bus error.
pub open spec fn sent_prefix<I2C>(
    before: L9961<I2C>,
    after: L9961<I2C>,
    writes: Seq<(Registers, u16)>,
    r: Result<(), Error>,
) -> bool {
    &&& exists|k: int|
        1 <= k <= writes.len() && #[trigger] sent_writes(before, after, writes.take(k)) && (forall|
            j: int,
        |
            0 <= j < k - 1 ==> #[trigger] after.outcomes()[before.outcomes().len() + j]) && (k
            < writes.len() ==> !after.outcomes().last())
    &&& bus_result(after, r)
}

/// `after` is `before` once a read has been answered with the bytes of `count` words.
pub open spec fn answered<I2C>(before: L9961<I2C>, after: L9961<I2C>, count: usize) -> bool {
    &&& after.answers().len() == before.answers().len() + 1
    &&& after.answers().drop_last() == before.answers()
    &&& words_of(after.answers().last()).len() == count
}

/// The first word of the last answer.
pub open spec fn last_word<I2C>(after: L9961<I2C>) -> u16 {
    words_of(after.answers().last())[0]
}

/// The register that holds the measurement of cell `cell` (1 to 5).
pub open spec fn vcell_register(cell: u8) -> Registers {
    if cell == 1 {
        Registers::VCell1
    } else if cell == 2 {
        Registers::VCell2
    } else if cell == 3 {
        Registers::VCell3
    } else if cell == 4 {
        Registers::VCell4
    } else {
        Registers::VCell5
    }
}

/// The writes that clear every latched fault.
pub open spec fn clear_all_faults_writes() -> Seq<(Registers, u16)> {
    seq![
        (Registers::DiagOvOtUt, DiagOvOtUt::ALL_BITS),
        (Registers::DiagCurr, DiagCurr::ALL_BITS),
        (Registers::DiagUv, DiagUv::ALL_BITS),
    ]
}

/// The writes that mask every fault.
pub open spec fn mask_all_faults_writes() -> Seq<(Registers, u16)> {
    seq![
        (Registers::ToFaultnMsk, ToFaultnMsk::ALL_BITS),
        (Registers::ToPrdrvBalMask, ToPrdrvBalMask::ALL_BITS),
        (Registers::ToFuseRstMask, ToFuseRstMask::ALL_BITS),
    ]
}

/// Nothing handed to the bus is no write.
proof fn lemma_no_writes<I2C>(s: L9961<I2C>, writes: Seq<(Registers, u16)>)
    ensures
        sent_writes(s, s, writes.take(0)),
{
    assert(s.requests().subrange(0, s.requests().len() as int) =~= s.requests());
    assert(s.outcomes().subrange(0, s.outcomes().len() as int) =~= s.outcomes());
}

/// One more write after the first `k` writes gives the first `k + 1`.
proof fn lemma_one_more_write<I2C>(
    s0: L9961<I2C>,
    s1: L9961<I2C>,
    s2: L9961<I2C>,
    writes: Seq<(Registers, u16)>,
    k: int,
)
    requires
        0 <= k < writes.len(),
        sent_writes(s0, s1, writes.take(k)),
        sent_write(s1, s2, writes[k].0, writes[k].1),
    ensures
        sent_writes(s0, s2, writes.take(k + 1)),
{
    let n = s0.requests().len() as int;
    let w = writes.take(k + 1);
    assert(s2.requests() == s1.requests().push(s2.requests().last()));
    assert(s2.outcomes() == s1.outcomes().push(s2.outcomes().last()));
    assert(s2.outcomes().subrange(0, s0.outcomes().len() as int) =~= s0.outcomes()) by {
        assert(s2.outcomes().subrange(0, s0.outcomes().len() as int) =~= s1.outcomes().subrange(
            0,
            s0.outcomes().len() as int,
        ));
    }
    assert(s2.requests().subrange(0, n) =~= s0.requests()) by {
        assert(s2.requests().subrange(0, n) =~= s1.requests().subrange(0, n));
    }
    assert forall|j: int| 0 <= j < w.len() implies is_write_of(
        #[trigger] s2.requests()[n + j],
        s0.device_address(),
        w[j].0,
        w[j].1,
    ) by {
        if j < k {
            assert(writes.take(k)[j] == w[j]);
            assert(s2.requests()[n + j] == s1.requests()[n + j]);
        } else {
            assert(s2.requests()[n + j] == s2.requests().last());
        }
    }
}

impl<I2C> L9961<I2C> {
    /// The bus address the driver talks to.
    pub closed spec fn device_address(&self) -> u8 {
        self.address
    }

    /// The transactions handed to the bus so far, oldest first.
    pub closed spec fn requests(&self) -> Seq<BusRequest> {
        self.requests@
    }

    /// The bytes of each successful read, oldest first.
    pub closed spec fn answers(&self) -> Seq<Seq<u8>> {
        self.answers@
    }

    /// For each transaction handed to the bus, oldest first, whether the bus completed it.
    pub closed spec fn outcomes(&self) -> Seq<bool> {
        self.outcomes@
    }

    /// The active configuration.
    pub closed spec fn configuration(&self) -> Config {
        self.config
    }

    /// The number of cells of the pack.
    pub closed spec fn cells(&self) -> u8 {
        self.cell_count
    }
}

impl<I2C: embedded_hal::i2c::I2c> L9961<I2C> {
    /// Create a driver for the L9961 on `i2c` at the address of `config`, for a pack of
    /// `cell_count` cells. Returns `None` unless the pack has 3 to 5 cells.
    pub fn new(i2c: I2C, config: Config, cell_count: u8) -> (r: Option<Self>)
        ensures
            r.is_some() == (3 <= cell_count <= 5),
            r matches Some(d) ==> d.device_address() == config.address && d.configuration()
                == config && d.cells() == cell_count && d.requests() == Seq::<BusRequest>::empty() && d.answers() == Seq::<Seq<u8>>::empty()
                && d.outcomes() == Seq::<bool>::empty(),
    {
        if cell_count < 3 || cell_count > 5 {
            return None;
        }
        Some(L9961 {
            i2c,
            address: config.address,
            config,
            cell_count,
            requests: Ghost(Seq::empty()),
            answers: Ghost(Seq::empty()),
            outcomes: Ghost(Seq::empty()),
        })
    }

    /// The number of cells of the pack.
    pub fn cell_count(&self) -> (r: u8)
        ensures
            r == self.cells(),
    {
        self.cell_count
    }

    /// A measurement cycle for this pack under the active configuration.
    pub fn measurement_cycle(&self) -> (r: MeasurementCycle)
        requires
            3 <= self.cells() <= 5,
        ensures
            r.phase == (Phase::Waiting),
            r.measurement == zero_measurement(),
            r.cell_count == self.cells(),
            r.timeout_ms == timeout_of(self.configuration().measurement_cycles),
    {
        MeasurementCycle::new(self.cell_count, self.config.measurement_cycles)
    }

    /// Read one or more consecutive registers from the L9961 in one transaction.
    pub fn read_registers(&mut self, register: Registers, count: usize) -> (r: Result<Vec<u16>, Error>)
        requires
            1 <= count <= MAX_BURST_REGISTERS,
        ensures
            bus_result(*final(self), r),
            sent_read(*old(self), *final(self), register, count),
            r matches Ok(words) ==> answered(*old(self), *final(self), count) && words@
                == words_of(final(self).answers().last()),
            r.is_err() ==> final(self).answers() == old(self).answers(),
    {
        let address = self.address;
        let register_byte = register.address();
        let len = 2 * count;
        let request = BusRequest::Read { address, register: register_byte, len };
        let ghost outcomes_before = self.outcomes@;
        self.requests = Ghost(self.requests@.push(request));
        let write: [u8; 1] = [register_byte];
        let result = bus_write_read(&mut self.i2c, address, &write, len);
        self.outcomes = Ghost(self.outcomes@.push(result.is_ok()));
        proof {
            assert(self.outcomes@.drop_last() =~= outcomes_before);
        }
        match result {
            Ok(bytes) => {
                let ghost before = self.answers@;
                self.answers = Ghost(self.answers@.push(bytes@));
                proof {
                    assert(self.answers@.drop_last() =~= before);
                }
                Ok(words_from_be_bytes(bytes.as_slice()))
            },
            Err(e) => Err(Error::I2CError(e)),
        }
    }

    /// Read a register from the L9961.
    pub fn read_register(&mut self, register: Registers) -> (r: Result<u16, Error>)
        ensures
            bus_result(*final(self), r),
            sent_read(*old(self), *final(self), register, 1),
            r matches Ok(w) ==> answered(*old(self), *final(self), 1) && w == last_word(*final(self)),
            r.is_err() ==> final(self).answers() == old(self).answers(),
    {
        match self.read_registers(register, 1) {
            Ok(words) => Ok(words[0]),
            Err(e) => Err(e),
        }
    }

    /// Write a new value to a register on the l9961
    pub fn write_register(&mut self, register: Registers, value: u16) -> (r: Result<(), Error>)
        ensures
            bus_result(*final(self), r),
            sent_write(*old(self), *final(self), register, value),
    {
        let address = self.address;
        let frame = write_frame(register, value);
        let ghost before = self.requests@;
        let ghost outcomes_before = self.outcomes@;
        self.requests = Ghost(self.requests@.push(BusRequest::Write { address, frame }));
        let result = bus_write(&mut self.i2c, address, &frame);
        self.outcomes = Ghost(self.outcomes@.push(result.is_ok()));
        proof {
            assert(self.requests@.drop_last() =~= before);
            assert(self.outcomes@.drop_last() =~= outcomes_before);
        }
        match result {
            Ok(()) => Ok(()),
            Err(e) => Err(Error::I2CError(e)),
        }
    }

    /// Performs a bus step of a measurement cycle and returns its event; a step that is not a
    /// bus transaction is left to the caller, with `None`.
    pub fn perform_bus_step(&mut self, step: Step) -> (r: Result<Option<Event>, Error>)
        requires
            step matches Step::ReadRegisters { count, .. } ==> 1 <= count <= MAX_BURST_REGISTERS,
        ensures
            match step {
                Step::ReadRegisters { start, count } => {
                    &&& sent_read(*old(self), *final(self), start, count)
                    &&& bus_result(*final(self), r)
                    &&& r matches Ok(e) ==> e matches Some(Event::RegistersRead(v)) && answered(
                        *old(self),
                        *final(self),
                        count,
                    ) && v@ == words_of(final(self).answers().last())
                },
                Step::WriteRegister { register, value } => {
                    &&& sent_write(*old(self), *final(self), register, value)
                    &&& bus_result(*final(self), r)
                    &&& r matches Ok(e) ==> e matches Some(Event::RegisterWritten)
                },
                _ => *final(self) == *old(self) && r matches Ok(None),
            },
    {
        match step {
            Step::ReadRegisters { start, count } => match self.read_registers(start, count) {
                Ok(words) => Ok(Some(Event::RegistersRead(words))),
                Err(e) => Err(e),
            },
            Step::WriteRegister { register, value } => match self.write_register(register, value) {
                Ok(()) => Ok(Some(Event::RegisterWritten)),
                Err(e) => Err(e),
            },
            _ => Ok(None),
        }
    }

    /// Ensure that the device is in standby mode: a measurement cycle period of 0 stops the
    /// measurements.
    pub fn disable_measurements(&mut self) -> (r: Result<(), Error>)
        ensures
            bus_result(*final(self), r),
            sent_write(*old(self), *final(self), Registers::Cfg1FiltersCycles, 0),
    {
        self.write_cfg1_filters_cycles(Cfg1FiltersCycles::deactivate())
    }

    /// Enable the measurement cycle of the active configuration
    pub fn enable_measurements(&mut self) -> (r: Result<(), Error>)
        ensures
            bus_result(*final(self), r),
            sent_write(
                *old(self),
                *final(self),
                Registers::Cfg1FiltersCycles,
                old(self).configuration().measurement_cycles.0,
            ),
    {
        let cycles = self.config.measurement_cycles;
        self.write_cfg1_filters_cycles(cycles)
    }

    /// Writes `writes` in order, and stops at the first write that fails.
    fn write_registers(&mut self, writes: &[(Registers, u16)]) -> (r: Result<(), Error>)
        requires
            writes@.len() >= 1,
        ensures
            sent_prefix(*old(self), *final(self), writes@, r),
    {
        let ghost s0 = *self;
        let ghost n0 = s0.outcomes().len() as int;
        proof {
            lemma_no_writes(s0, writes@);
        }
        let mut i: usize = 0;
        let mut r: Result<(), Error> = Ok(());
        while i < writes.len()
            invariant
                0 <= i <= writes@.len(),
                writes@.len() >= 1,
                s0 == *old(self),
                n0 == s0.outcomes().len(),
                sent_writes(s0, *self, writes@.take(i as int)),
                forall|j: int| 0 <= j < i ==> #[trigger] self.outcomes()[n0 + j],
                i > 0 ==> bus_result(*self, r),
            decreases writes@.len() - i,
        {
            let (register, value) = writes[i];
            let ghost before = *self;
            r = self.write_register(register, value);
            proof {
                lemma_one_more_write(s0, before, *self, writes@, i as int);
                assert forall|j: int| 0 <= j < i implies #[trigger] self.outcomes()[n0 + j] by {
                    assert(self.outcomes()[n0 + j] == before.outcomes()[n0 + j]);
                }
            }
            i = i + 1;
            if r.is_err() {
                proof {
                    assert(sent_writes(s0, *self, writes@.take(i as int)));
                }
                return r;
            }
            proof {
                assert(self.outcomes()[n0 + (i - 1)] == self.outcomes().last());
            }
        }
        proof {
            assert(sent_writes(s0, *self, writes@.take(i as int)));
        }
        r
    }

    /// Clear all fault registers: each latched fault bit is cleared by writing 1 to it.
    /// Stops at the first failing write.
    pub fn clear_all_faults(&mut self) -> (r: Result<(), Error>)
        ensures
            sent_prefix(*old(self), *final(self), clear_all_faults_writes(), r),
    {
        let writes = [
            (Registers::DiagOvOtUt, DiagOvOtUt::all().0),
            (Registers::DiagCurr, DiagCurr::all().0),
            (Registers::DiagUv, DiagUv::all().0),
        ];
        proof {
            assert(writes@ =~= clear_all_faults_writes());
        }
        self.write_registers(&writes)
    }

    /// Mask all fault assertions for development purposes. Stops at the first failing write.
    pub fn mask_all_faults(&mut self) -> (r: Result<(), Error>)
        ensures
            sent_prefix(*old(self), *final(self), mask_all_faults_writes(), r),
    {
        let writes = [
            (Registers::ToFaultnMsk, ToFaultnMsk::all().0),
            (Registers::ToPrdrvBalMask, ToPrdrvBalMask::all().0),
            (Registers::ToFuseRstMask, ToFuseRstMask::all().0),
        ];
        proof {
            assert(writes@ =~= mask_all_faults_writes());
        }
        self.write_registers(&writes)
    }

    /// Program the cell and pack voltage thresholds of `config`. Stops at the first failing
    /// write.
    pub fn configure_voltage_thresholds(&mut self, config: VoltageThresholds) -> (r: Result<(), Error>)
        ensures
            sent_prefix(*old(self), *final(self), voltage_threshold_writes(config), r),
    {
        let writes = [
            (Registers::VCellOvTh, config.cell_over_voltage_configuration().0),
            (Registers::VCellUvTh, config.cell_under_voltage_configuration().0),
            (
                Registers::VCellBalUvDeltaTh,
                config.cell_balancing_under_voltage_delta_configuration().0,
            ),
            (
                Registers::VCellSevereDeltaThrs,
                config.cell_severe_voltage_threshold_delta_configuration().0,
            ),
            (Registers::VBOvTh, config.pack_over_voltage_threshold().0),
            (Registers::VBUvTh, config.pack_under_voltage_threshold().0),
            (Registers::VBSumMaxDiffTh, config.pack_vs_cell_sum_delta_threshold().0),
        ];
        proof {
            assert(writes@ =~= voltage_threshold_writes(config));
        }
        self.write_registers(&writes)
    }

    /// Program the NTC thresholds of `thresholds`. Stops at the first failing write.
    pub fn configure_ntc_thresholds(&mut self, thresholds: NtcThresholds) -> (r: Result<(), Error>)
        ensures
            sent_prefix(*old(self), *final(self), ntc_threshold_writes(thresholds), r),
    {
        let writes = [
            (Registers::VNTCOTTh, thresholds.over_temperature_configuration().0),
            (Registers::VNTCUTTh, thresholds.under_temperature_configuration().0),
            (Registers::VNTCSevereOTTh, thresholds.severe_over_temp_delta_configuration().0),
        ];
        proof {
            assert(writes@ =~= ntc_threshold_writes(thresholds));
        }
        self.write_registers(&writes)
    }

    /// Configure the cell voltage thresholds of the active configuration
    pub fn apply_voltage_threshold_configuration(&mut self) -> (r: Result<(), Error>)
        ensures
            sent_prefix(
                *old(self),
                *final(self),
                voltage_threshold_writes(old(self).configuration().voltage_thresholds),
                r,
            ),
    {
        let thresholds = self.config.voltage_thresholds;
        self.configure_voltage_thresholds(thresholds)
    }

    /// Configure the NTC thresholds of the active configuration
    pub fn apply_ntc_threshold_configuration(&mut self) -> (r: Result<(), Error>)
        ensures
            sent_prefix(
                *old(self),
                *final(self),
                ntc_threshold_writes(old(self).configuration().ntc_thresholds),
                r,
            ),
    {
        let thresholds = self.config.ntc_thresholds;
        self.configure_ntc_thresholds(thresholds)
    }

    /// Apply the active configuration: the device address first, at the current address; then,
    /// at the new address, the voltage and the NTC thresholds. Stops at the first failing write.
    pub fn apply_config(&mut self) -> (r: Result<(), Error>)
        ensures
            exists|mid: L9961<I2C>|
                #[trigger] sent_write_to(
                    *old(self),
                    mid,
                    old(self).device_address(),
                    Registers::DevAddr,
                    old(self).configuration().address as u16,
                ) && ((!mid.outcomes().last() && bus_result(mid, r) && *final(self) == mid
                    && mid.device_address() == old(self).device_address()) || (
                mid.outcomes().last() && mid.device_address() == field(
                    old(self).configuration().address as u16,
                    0,
                    7,
                ) as u8 && sent_prefix(
                    mid,
                    *final(self),
                    config_threshold_writes(old(self).configuration()),
                    r,
                ))),
    {
        let ghost s0 = *self;
        let r = self.write_device_address(DevAddr(self.config.address as u16));
        let ghost mid = *self;
        proof {
            assert(sent_write_to(
                s0,
                mid,
                s0.device_address(),
                Registers::DevAddr,
                s0.configuration().address as u16,
            ));
        }
        if r.is_err() {
            return r;
        }
        let v = self.config.voltage_thresholds;
        let n = self.config.ntc_thresholds;
        let writes = [
            (Registers::VCellOvTh, v.cell_over_voltage_configuration().0),
            (Registers::VCellUvTh, v.cell_under_voltage_configuration().0),
            (Registers::VCellBalUvDeltaTh, v.cell_balancing_under_voltage_delta_configuration().0),
            (Registers::VCellSevereDeltaThrs, v.cell_severe_voltage_threshold_delta_configuration().0),
            (Registers::VBOvTh, v.pack_over_voltage_threshold().0),
            (Registers::VBUvTh, v.pack_under_voltage_threshold().0),
            (Registers::VBSumMaxDiffTh, v.pack_vs_cell_sum_delta_threshold().0),
            (Registers::VNTCOTTh, n.over_temperature_configuration().0),
            (Registers::VNTCUTTh, n.under_temperature_configuration().0),
            (Registers::VNTCSevereOTTh, n.severe_over_temp_delta_configuration().0),
        ];
        proof {
            assert(writes@ =~= config_threshold_writes(s0.configuration()));
        }
        self.write_registers(&writes)
    }

    /// Download the configuration from the NVM.
    pub fn download_configuration_from_nvm(&mut self) -> (r: Result<(), Error>)
        ensures
            bus_result(*final(self), r),
            sent_write(*old(self), *final(self), Registers::Nvm2, NVM_WRITE_READ_CODE_CMD_DOWNLOAD),
    {
        self.write_register(Registers::Nvm2, NVM_WRITE_READ_CODE_CMD_DOWNLOAD)
    }

    /// Upload the configuration to the NVM.
    pub fn upload_configuration_to_nvm(&mut self) -> (r: Result<(), Error>)
        ensures
            bus_result(*final(self), r),
            sent_write(*old(self), *final(self), Registers::Nvm2, NVM_WRITE_READ_CODE_CMD_UPLOAD),
    {
        self.write_register(Registers::Nvm2, NVM_WRITE_READ_CODE_CMD_UPLOAD)
    }

    /// Send the device to ship mode.
    pub fn go_2_ship(&mut self) -> (r: Result<(), Error>)
        ensures
            bus_result(*final(self), r),
            sent_write(*old(self), *final(self), Registers::VCell1, CMD_VAL),
    {
        self.write_register(Registers::VCell1, CMD_VAL)
    }

    /// Send the device to standby mode.
    pub fn go_2_standby(&mut self) -> (r: Result<(), Error>)
        ensures
            bus_result(*final(self), r),
            sent_write(*old(self), *final(self), Registers::VCell2, CMD_VAL),
    {
        self.write_register(Registers::VCell2, CMD_VAL)
    }

    /// Arm the fuse trigger.
    pub fn fuse_trig_arm(&mut self) -> (r: Result<(), Error>)
        ensures
            bus_result(*final(self), r),
            sent_write(*old(self), *final(self), Registers::VCell3, CMD_VAL),
    {
        self.write_register(Registers::VCell3, CMD_VAL)
    }

    /// Fire the armed fuse trigger.
    pub fn fuse_trig_fire(&mut self) -> (r: Result<(), Error>)
        ensures
            bus_result(*final(self), r),
            sent_write(*old(self), *final(self), Registers::VCell4, CMD_VAL),
    {
        self.write_register(Registers::VCell4, CMD_VAL)
    }

    /// Read the chip ID register
    pub fn read_chip_id(&mut self) -> (r: Result<ChipID, Error>)
        ensures
            bus_result(*final(self), r),
            sent_read(*old(self), *final(self), Registers::ChipID, 1),
            r matches Ok(v) ==> answered(*old(self), *final(self), 1) && v.0 == last_word(
                *final(self),
            ),
            r.is_err() ==> final(self).answers() == old(self).answers(),
    {
        match self.read_register(Registers::ChipID) {
            Ok(raw) => Ok(ChipID(raw)),
            Err(e) => Err(e),
        }
    }

    /// Read the Cfg3Act register
    pub fn read_cfg3_act(&mut self) -> (r: Result<Cfg3Act, Error>)
        ensures
            bus_result(*final(self), r),
            sent_read(*old(self), *final(self), Registers::Cfg3Act, 1),
            r matches Ok(v) ==> answered(*old(self), *final(self), 1) && v.0 == last_word(
                *final(self),
            ),
            r.is_err() ==> final(self).answers() == old(self).answers(),
    {
        match self.read_register(Registers::Cfg3Act) {
            Ok(raw) => Ok(Cfg3Act(raw)),
            Err(e) => Err(e),
        }
    }

    /// Write a new value to the Cfg3Act register
    pub fn write_cfg3_act(&mut self, new_config: Cfg3Act) -> (r: Result<(), Error>)
        ensures
            bus_result(*final(self), r),
            sent_write(*old(self), *final(self), Registers::Cfg3Act, new_config.0),
    {
        self.write_register(Registers::Cfg3Act, new_config.0)
    }

    /// Read the Cfg1FiltersCycles register
    pub fn read_cfg1_filters_cycles(&mut self) -> (r: Result<Cfg1FiltersCycles, Error>)
        ensures
            bus_result(*final(self), r),
            sent_read(*old(self), *final(self), Registers::Cfg1FiltersCycles, 1),
            r matches Ok(v) ==> answered(*old(self), *final(self), 1) && v.0 == last_word(
                *final(self),
            ),
            r.is_err() ==> final(self).answers() == old(self).answers(),
    {
        match self.read_register(Registers::Cfg1FiltersCycles) {
            Ok(raw) => Ok(Cfg1FiltersCycles(raw)),
            Err(e) => Err(e),
        }
    }

    /// Write a new value to the Cfg1FiltersCycles register
    pub fn write_cfg1_filters_cycles(&mut self, new_config: Cfg1FiltersCycles) -> (r: Result<(), Error>)
        ensures
            bus_result(*final(self), r),
            sent_write(*old(self), *final(self), Registers::Cfg1FiltersCycles, new_config.0),
    {
        self.write_register(Registers::Cfg1FiltersCycles, new_config.0)
    }

    /// Read the device address register
    pub fn read_device_address(&mut self) -> (r: Result<DevAddr, Error>)
        ensures
            bus_result(*final(self), r),
            sent_read(*old(self), *final(self), Registers::DevAddr, 1),
            r matches Ok(v) ==> answered(*old(self), *final(self), 1) && v.0 == last_word(
                *final(self),
            ),
            r.is_err() ==> final(self).answers() == old(self).answers(),
    {
        match self.read_register(Registers::DevAddr) {
            Ok(raw) => Ok(DevAddr(raw)),
            Err(e) => Err(e),
        }
    }

    /// Write a new value to the device address register. On success the driver addresses the
    /// device at its new address from then on.
    pub fn write_device_address(&mut self, new_config: DevAddr) -> (r: Result<(), Error>)
        ensures
            bus_result(*final(self), r),
            sent_write_to(*old(self), *final(self), old(self).device_address(), Registers::DevAddr, new_config.0),
            final(self).device_address() == if r.is_ok() {
                field(new_config.0, 0, 7) as u8
            } else {
                old(self).device_address()
            },
    {
        let result = self.write_register(Registers::DevAddr, new_config.0);
        if result.is_ok() {
            self.address = new_config.get_device_address();
        }
        result
    }

    /// Read the Cfg2Enables register
    pub fn read_cfg2_enables(&mut self) -> (r: Result<Cfg2Enables, Error>)
        ensures
            bus_result(*final(self), r),
            sent_read(*old(self), *final(self), Registers::Cfg2Enables, 1),
            r matches Ok(v) ==> answered(*old(self), *final(self), 1) && v.0 == last_word(
                *final(self),
            ),
            r.is_err() ==> final(self).answers() == old(self).answers(),
    {
        match self.read_register(Registers::Cfg2Enables) {
            Ok(raw) => Ok(Cfg2Enables(raw)),
            Err(e) => Err(e),
        }
    }

    /// Write a new value to the Cfg2Enables register
    pub fn write_cfg2_enables(&mut self, new_config: Cfg2Enables) -> (r: Result<(), Error>)
        ensures
            bus_result(*final(self), r),
            sent_write(*old(self), *final(self), Registers::Cfg2Enables, new_config.0),
    {
        self.write_register(Registers::Cfg2Enables, new_config.0)
    }

    /// Read the CSA (Current Sense ADC) gain factor register
    pub fn read_csa_gain_factor(&mut self) -> (r: Result<CsaGainFactor, Error>)
        ensures
            bus_result(*final(self), r),
            sent_read(*old(self), *final(self), Registers::CsaGainFactor, 1),
            r matches Ok(v) ==> answered(*old(self), *final(self), 1) && v.0 == last_word(
                *final(self),
            ),
            r.is_err() ==> final(self).answers() == old(self).answers(),
    {
        match self.read_register(Registers::CsaGainFactor) {
            Ok(raw) => Ok(CsaGainFactor(raw)),
            Err(e) => Err(e),
        }
    }

    /// Write a new value to the CSA (Current Sense ADC) gain factor register
    pub fn write_csa_gain_factor(&mut self, new_config: CsaGainFactor) -> (r: Result<(), Error>)
        ensures
            bus_result(*final(self), r),
            sent_write(*old(self), *final(self), Registers::CsaGainFactor, new_config.0),
    {
        self.write_register(Registers::CsaGainFactor, new_config.0)
    }

    /// Read the VCell over-voltage threshold register
    pub fn read_vcell_ov_th(&mut self) -> (r: Result<VCellOvTh, Error>)
        ensures
            bus_result(*final(self), r),
            sent_read(*old(self), *final(self), Registers::VCellOvTh, 1),
            r matches Ok(v) ==> answered(*old(self), *final(self), 1) && v.0 == last_word(
                *final(self),
            ),
            r.is_err() ==> final(self).answers() == old(self).answers(),
    {
        match self.read_register(Registers::VCellOvTh) {
            Ok(raw) => Ok(VCellOvTh(raw)),
            Err(e) => Err(e),
        }
    }

    /// Write a new value to the VCell over-voltage threshold register
    pub fn write_vcell_ov_th(&mut self, new_config: VCellOvTh) -> (r: Result<(), Error>)
        ensures
            bus_result(*final(self), r),
            sent_write(*old(self), *final(self), Registers::VCellOvTh, new_config.0),
    {
        self.write_register(Registers::VCellOvTh, new_config.0)
    }

    /// Read the VCell under-voltage threshold register
    pub fn read_vcell_uv_th(&mut self) -> (r: Result<VCellUvTh, Error>)
        ensures
            bus_result(*final(self), r),
            sent_read(*old(self), *final(self), Registers::VCellUvTh, 1),
            r matches Ok(v) ==> answered(*old(self), *final(self), 1) && v.0 == last_word(
                *final(self),
            ),
            r.is_err() ==> final(self).answers() == old(self).answers(),
    {
        match self.read_register(Registers::VCellUvTh) {
            Ok(raw) => Ok(VCellUvTh(raw)),
            Err(e) => Err(e),
        }
    }

    /// Write a new value to the VCell under-voltage threshold register
    pub fn write_vcell_uv_th(&mut self, new_config: VCellUvTh) -> (r: Result<(), Error>)
        ensures
            bus_result(*final(self), r),
            sent_write(*old(self), *final(self), Registers::VCellUvTh, new_config.0),
    {
        self.write_register(Registers::VCellUvTh, new_config.0)
    }

    /// Read the VCellSevereDeltaThrs register
    pub fn read_vcell_severe_delta_thrs(&mut self) -> (r: Result<VCellSevereDeltaThrs, Error>)
        ensures
            bus_result(*final(self), r),
            sent_read(*old(self), *final(self), Registers::VCellSevereDeltaThrs, 1),
            r matches Ok(v) ==> answered(*old(self), *final(self), 1) && v.0 == last_word(
                *final(self),
            ),
            r.is_err() ==> final(self).answers() == old(self).answers(),
    {
        match self.read_register(Registers::VCellSevereDeltaThrs) {
            Ok(raw) => Ok(VCellSevereDeltaThrs(raw)),
            Err(e) => Err(e),
        }
    }

    /// Write a new value to the VCellSevereDeltaThrs register
    pub fn write_vcell_severe_delta_thrs(&mut self, new_config: VCellSevereDeltaThrs) -> (r: Result<(), Error>)
        ensures
            bus_result(*final(self), r),
            sent_write(*old(self), *final(self), Registers::VCellSevereDeltaThrs, new_config.0),
    {
        self.write_register(Registers::VCellSevereDeltaThrs, new_config.0)
    }

    /// Read the VCellBalUvDeltaTh register
    pub fn read_vcell_bal_uv_delta_th(&mut self) -> (r: Result<VCellBalUvDeltaTh, Error>)
        ensures
            bus_result(*final(self), r),
            sent_read(*old(self), *final(self), Registers::VCellBalUvDeltaTh, 1),
            r matches Ok(v) ==> answered(*old(self), *final(self), 1) && v.0 == last_word(
                *final(self),
            ),
            r.is_err() ==> final(self).answers() == old(self).answers(),
    {
        match self.read_register(Registers::VCellBalUvDeltaTh) {
            Ok(raw) => Ok(VCellBalUvDeltaTh(raw)),
            Err(e) => Err(e),
        }
    }

    /// Write a new value to the VCellBalUvDeltaTh register
    pub fn write_vcell_bal_uv_delta_th(&mut self, new_config: VCellBalUvDeltaTh) -> (r: Result<(), Error>)
        ensures
            bus_result(*final(self), r),
            sent_write(*old(self), *final(self), Registers::VCellBalUvDeltaTh, new_config.0),
    {
        self.write_register(Registers::VCellBalUvDeltaTh, new_config.0)
    }

    /// Read the VBOvTh register
    pub fn read_vb_ov_th(&mut self) -> (r: Result<VBOvTh, Error>)
        ensures
            bus_result(*final(self), r),
            sent_read(*old(self), *final(self), Registers::VBOvTh, 1),
            r matches Ok(v) ==> answered(*old(self), *final(self), 1) && v.0 == last_word(
                *final(self),
            ),
            r.is_err() ==> final(self).answers() == old(self).answers(),
    {
        match self.read_register(Registers::VBOvTh) {
            Ok(raw) => Ok(VBOvTh(raw)),
            Err(e) => Err(e),
        }
    }

    /// Write a new value to the VBOvTh register
    pub fn write_vb_ov_th(&mut self, new_config: VBOvTh) -> (r: Result<(), Error>)
        ensures
            bus_result(*final(self), r),
            sent_write(*old(self), *final(self), Registers::VBOvTh, new_config.0),
    {
        self.write_register(Registers::VBOvTh, new_config.0)
    }

    /// Read the VBUvTh register
    pub fn read_vb_uv_th(&mut self) -> (r: Result<VBUvTh, Error>)
        ensures
            bus_result(*final(self), r),
            sent_read(*old(self), *final(self), Registers::VBUvTh, 1),
            r matches Ok(v) ==> answered(*old(self), *final(self), 1) && v.0 == last_word(
                *final(self),
            ),
            r.is_err() ==> final(self).answers() == old(self).answers(),
    {
        match self.read_register(Registers::VBUvTh) {
            Ok(raw) => Ok(VBUvTh(raw)),
            Err(e) => Err(e),
        }
    }

    /// Write a new value to the VBUvTh register
    pub fn write_vb_uv_th(&mut self, new_config: VBUvTh) -> (r: Result<(), Error>)
        ensures
            bus_result(*final(self), r),
            sent_write(*old(self), *final(self), Registers::VBUvTh, new_config.0),
    {
        self.write_register(Registers::VBUvTh, new_config.0)
    }

    /// Read the VBSumMaxDiffTh register
    pub fn read_vb_sum_max_diff_th(&mut self) -> (r: Result<VBSumMaxDiffTh, Error>)
        ensures
            bus_result(*final(self), r),
            sent_read(*old(self), *final(self), Registers::VBSumMaxDiffTh, 1),
            r matches Ok(v) ==> answered(*old(self), *final(self), 1) && v.0 == last_word(
                *final(self),
            ),
            r.is_err() ==> final(self).answers() == old(self).answers(),
    {
        match self.read_register(Registers::VBSumMaxDiffTh) {
            Ok(raw) => Ok(VBSumMaxDiffTh(raw)),
            Err(e) => Err(e),
        }
    }

    /// Write a new value to the VBSumMaxDiffTh register
    pub fn write_vb_sum_max_diff_th(&mut self, new_config: VBSumMaxDiffTh) -> (r: Result<(), Error>)
        ensures
            bus_result(*final(self), r),
            sent_write(*old(self), *final(self), Registers::VBSumMaxDiffTh, new_config.0),
    {
        self.write_register(Registers::VBSumMaxDiffTh, new_config.0)
    }

    /// Read the VNTCOTTh register
    pub fn read_vntc_ot_th(&mut self) -> (r: Result<VNTCOTTh, Error>)
        ensures
            bus_result(*final(self), r),
            sent_read(*old(self), *final(self), Registers::VNTCOTTh, 1),
            r matches Ok(v) ==> answered(*old(self), *final(self), 1) && v.0 == last_word(
                *final(self),
            ),
            r.is_err() ==> final(self).answers() == old(self).answers(),
    {
        match self.read_register(Registers::VNTCOTTh) {
            Ok(raw) => Ok(VNTCOTTh(raw)),
            Err(e) => Err(e),
        }
    }

    /// Write a new value to the VNTCOTTh register
    pub fn write_vntc_ot_th(&mut self, new_config: VNTCOTTh) -> (r: Result<(), Error>)
        ensures
            bus_result(*final(self), r),
            sent_write(*old(self), *final(self), Registers::VNTCOTTh, new_config.0),
    {
        self.write_register(Registers::VNTCOTTh, new_config.0)
    }

    /// Read the VNTCUTTh register
    pub fn read_vntc_ut_th(&mut self) -> (r: Result<VNTCUTTh, Error>)
        ensures
            bus_result(*final(self), r),
            sent_read(*old(self), *final(self), Registers::VNTCUTTh, 1),
            r matches Ok(v) ==> answered(*old(self), *final(self), 1) && v.0 == last_word(
                *final(self),
            ),
            r.is_err() ==> final(self).answers() == old(self).answers(),
    {
        match self.read_register(Registers::VNTCUTTh) {
            Ok(raw) => Ok(VNTCUTTh(raw)),
            Err(e) => Err(e),
        }
    }

    /// Write a new value to the VNTCUTTh register
    pub fn write_vntc_ut_th(&mut self, new_config: VNTCUTTh) -> (r: Result<(), Error>)
        ensures
            bus_result(*final(self), r),
            sent_write(*old(self), *final(self), Registers::VNTCUTTh, new_config.0),
    {
        self.write_register(Registers::VNTCUTTh, new_config.0)
    }

    /// Read the VNTCSevereOTTh register
    pub fn read_vntc_severe_ot_th(&mut self) -> (r: Result<VNTCSevereOTTh, Error>)
        ensures
            bus_result(*final(self), r),
            sent_read(*old(self), *final(self), Registers::VNTCSevereOTTh, 1),
            r matches Ok(v) ==> answered(*old(self), *final(self), 1) && v.0 == last_word(
                *final(self),
            ),
            r.is_err() ==> final(self).answers() == old(self).answers(),
    {
        match self.read_register(Registers::VNTCSevereOTTh) {
            Ok(raw) => Ok(VNTCSevereOTTh(raw)),
            Err(e) => Err(e),
        }
    }

    /// Write a new value to the VNTCSevereOTTh register
    pub fn write_vntc_severe_ot_th(&mut self, new_config: VNTCSevereOTTh) -> (r: Result<(), Error>)
        ensures
            bus_result(*final(self), r),
            sent_write(*old(self), *final(self), Registers::VNTCSevereOTTh, new_config.0),
    {
        self.write_register(Registers::VNTCSevereOTTh, new_config.0)
    }

    /// Read the OvCThresholds register
    pub fn read_ovc_thresholds(&mut self) -> (r: Result<OvCThresholds, Error>)
        ensures
            bus_result(*final(self), r),
            sent_read(*old(self), *final(self), Registers::OvCThresholds, 1),
            r matches Ok(v) ==> answered(*old(self), *final(self), 1) && v.0 == last_word(
                *final(self),
            ),
            r.is_err() ==> final(self).answers() == old(self).answers(),
    {
        match self.read_register(Registers::OvCThresholds) {
            Ok(raw) => Ok(OvCThresholds(raw)),
            Err(e) => Err(e),
        }
    }

    /// Write a new value to the OvCThresholds register
    pub fn write_ovc_thresholds(&mut self, new_config: OvCThresholds) -> (r: Result<(), Error>)
        ensures
            bus_result(*final(self), r),
            sent_write(*old(self), *final(self), Registers::OvCThresholds, new_config.0),
    {
        self.write_register(Registers::OvCThresholds, new_config.0)
    }

    /// Read the PersistentOvCThresholds register
    pub fn read_persistent_ovc_thresholds(&mut self) -> (r: Result<PersistentOvCThresholds, Error>)
        ensures
            bus_result(*final(self), r),
            sent_read(*old(self), *final(self), Registers::PersistentOvCThresholds, 1),
            r matches Ok(v) ==> answered(*old(self), *final(self), 1) && v.0 == last_word(
                *final(self),
            ),
            r.is_err() ==> final(self).answers() == old(self).answers(),
    {
        match self.read_register(Registers::PersistentOvCThresholds) {
            Ok(raw) => Ok(PersistentOvCThresholds(raw)),
            Err(e) => Err(e),
        }
    }

    /// Write a new value to the PersistentOvCThresholds register
    pub fn write_persistent_ovc_thresholds(&mut self, new_config: PersistentOvCThresholds) -> (r: Result<(), Error>)
        ensures
            bus_result(*final(self), r),
            sent_write(*old(self), *final(self), Registers::PersistentOvCThresholds, new_config.0),
    {
        self.write_register(Registers::PersistentOvCThresholds, new_config.0)
    }

    /// Read the SCThreshold register
    pub fn read_sc_threshold(&mut self) -> (r: Result<SCThreshold, Error>)
        ensures
            bus_result(*final(self), r),
            sent_read(*old(self), *final(self), Registers::SCThreshold, 1),
            r matches Ok(v) ==> answered(*old(self), *final(self), 1) && v.0 == last_word(
                *final(self),
            ),
            r.is_err() ==> final(self).answers() == old(self).answers(),
    {
        match self.read_register(Registers::SCThreshold) {
            Ok(raw) => Ok(SCThreshold(raw)),
            Err(e) => Err(e),
        }
    }

    /// Write a new value to the SCThreshold register
    pub fn write_sc_threshold(&mut self, new_config: SCThreshold) -> (r: Result<(), Error>)
        ensures
            bus_result(*final(self), r),
            sent_write(*old(self), *final(self), Registers::SCThreshold, new_config.0),
    {
        self.write_register(Registers::SCThreshold, new_config.0)
    }

    /// Read the TO_PRDRV_BAL_MASK register
    pub fn read_to_prdrv_bal_mask(&mut self) -> (r: Result<ToPrdrvBalMask, Error>)
        ensures
            bus_result(*final(self), r),
            sent_read(*old(self), *final(self), Registers::ToPrdrvBalMask, 1),
            r matches Ok(v) ==> answered(*old(self), *final(self), 1) && v.0 == last_word(
                *final(self),
            ),
            r.is_err() ==> final(self).answers() == old(self).answers(),
    {
        match self.read_register(Registers::ToPrdrvBalMask) {
            Ok(raw) => Ok(ToPrdrvBalMask(raw)),
            Err(e) => Err(e),
        }
    }

    /// Write a new value to the TO_PRDRV_BAL_MASK register
    pub fn write_to_prdrv_bal_mask(&mut self, new_config: ToPrdrvBalMask) -> (r: Result<(), Error>)
        ensures
            bus_result(*final(self), r),
            sent_write(*old(self), *final(self), Registers::ToPrdrvBalMask, new_config.0),
    {
        self.write_register(Registers::ToPrdrvBalMask, new_config.0)
    }

    /// Read the TO_FUSE_RST_MSK register
    pub fn read_to_fuse_rst_msk(&mut self) -> (r: Result<ToFuseRstMask, Error>)
        ensures
            bus_result(*final(self), r),
            sent_read(*old(self), *final(self), Registers::ToFuseRstMask, 1),
            r matches Ok(v) ==> answered(*old(self), *final(self), 1) && v.0 == last_word(
                *final(self),
            ),
            r.is_err() ==> final(self).answers() == old(self).answers(),
    {
        match self.read_register(Registers::ToFuseRstMask) {
            Ok(raw) => Ok(ToFuseRstMask(raw)),
            Err(e) => Err(e),
        }
    }

    /// Write a new value to the TO_FUSE_RST_MSK register
    pub fn write_to_fuse_rst_msk(&mut self, new_config: ToFuseRstMask) -> (r: Result<(), Error>)
        ensures
            bus_result(*final(self), r),
            sent_write(*old(self), *final(self), Registers::ToFuseRstMask, new_config.0),
    {
        self.write_register(Registers::ToFuseRstMask, new_config.0)
    }

    /// Read the TO_FAULTN_MSK register
    pub fn read_to_faultn_msk(&mut self) -> (r: Result<ToFaultnMsk, Error>)
        ensures
            bus_result(*final(self), r),
            sent_read(*old(self), *final(self), Registers::ToFaultnMsk, 1),
            r matches Ok(v) ==> answered(*old(self), *final(self), 1) && v.0 == last_word(
                *final(self),
            ),
            r.is_err() ==> final(self).answers() == old(self).answers(),
    {
        match self.read_register(Registers::ToFaultnMsk) {
            Ok(raw) => Ok(ToFaultnMsk(raw)),
            Err(e) => Err(e),
        }
    }

    /// Write a new value to the TO_FAULTN_MSK register
    pub fn write_to_faultn_msk(&mut self, new_config: ToFaultnMsk) -> (r: Result<(), Error>)
        ensures
            bus_result(*final(self), r),
            sent_write(*old(self), *final(self), Registers::ToFaultnMsk, new_config.0),
    {
        self.write_register(Registers::ToFaultnMsk, new_config.0)
    }

    /// Read the CURR_MSK register
    pub fn read_curr_msk(&mut self) -> (r: Result<CurrMsk, Error>)
        ensures
            bus_result(*final(self), r),
            sent_read(*old(self), *final(self), Registers::CurrMsk, 1),
            r matches Ok(v) ==> answered(*old(self), *final(self), 1) && v.0 == last_word(
                *final(self),
            ),
            r.is_err() ==> final(self).answers() == old(self).answers(),
    {
        match self.read_register(Registers::CurrMsk) {
            Ok(raw) => Ok(CurrMsk(raw)),
            Err(e) => Err(e),
        }
    }

    /// Write a new value to the CURR_MSK register
    pub fn write_curr_msk(&mut self, new_config: CurrMsk) -> (r: Result<(), Error>)
        ensures
            bus_result(*final(self), r),
            sent_write(*old(self), *final(self), Registers::CurrMsk, new_config.0),
    {
        self.write_register(Registers::CurrMsk, new_config.0)
    }

    /// Read the manufacturer name MSB register
    pub fn read_manufacturer_name_msb(&mut self) -> (r: Result<u16, Error>)
        ensures
            bus_result(*final(self), r),
            sent_read(*old(self), *final(self), Registers::ManufacturerNameMsb, 1),
            r matches Ok(v) ==> answered(*old(self), *final(self), 1) && v == last_word(
                *final(self),
            ),
            r.is_err() ==> final(self).answers() == old(self).answers(),
    {
        match self.read_register(Registers::ManufacturerNameMsb) {
            Ok(raw) => Ok(raw),
            Err(e) => Err(e),
        }
    }

    /// Write a new value to the manufacturer name MSB register
    pub fn write_manufacturer_name_msb(&mut self, value: u16) -> (r: Result<(), Error>)
        ensures
            bus_result(*final(self), r),
            sent_write(*old(self), *final(self), Registers::ManufacturerNameMsb, value),
    {
        self.write_register(Registers::ManufacturerNameMsb, value)
    }

    /// Read the manufacturer name LSB register
    pub fn read_manufacturer_name_lsb(&mut self) -> (r: Result<u16, Error>)
        ensures
            bus_result(*final(self), r),
            sent_read(*old(self), *final(self), Registers::ManufacturerNameLsb, 1),
            r matches Ok(v) ==> answered(*old(self), *final(self), 1) && v == last_word(
                *final(self),
            ),
            r.is_err() ==> final(self).answers() == old(self).answers(),
    {
        match self.read_register(Registers::ManufacturerNameLsb) {
            Ok(raw) => Ok(raw),
            Err(e) => Err(e),
        }
    }

    /// Write a new value to the manufacturer name LSB register
    pub fn write_manufacturer_name_lsb(&mut self, value: u16) -> (r: Result<(), Error>)
        ensures
            bus_result(*final(self), r),
            sent_write(*old(self), *final(self), Registers::ManufacturerNameLsb, value),
    {
        self.write_register(Registers::ManufacturerNameLsb, value)
    }

    /// Read the manufacturing date register
    pub fn read_manufacturing_date(&mut self) -> (r: Result<u16, Error>)
        ensures
            bus_result(*final(self), r),
            sent_read(*old(self), *final(self), Registers::ManufacturingDate, 1),
            r matches Ok(v) ==> answered(*old(self), *final(self), 1) && v == last_word(
                *final(self),
            ),
            r.is_err() ==> final(self).answers() == old(self).answers(),
    {
        match self.read_register(Registers::ManufacturingDate) {
            Ok(raw) => Ok(raw),
            Err(e) => Err(e),
        }
    }

    /// Write a new value to the manufacturing date register
    pub fn write_manufacturing_date(&mut self, value: u16) -> (r: Result<(), Error>)
        ensures
            bus_result(*final(self), r),
            sent_write(*old(self), *final(self), Registers::ManufacturingDate, value),
    {
        self.write_register(Registers::ManufacturingDate, value)
    }

    /// Read the first usage date register
    pub fn read_first_usage_date(&mut self) -> (r: Result<u16, Error>)
        ensures
            bus_result(*final(self), r),
            sent_read(*old(self), *final(self), Registers::FirstUsageDate, 1),
            r matches Ok(v) ==> answered(*old(self), *final(self), 1) && v == last_word(
                *final(self),
            ),
            r.is_err() ==> final(self).answers() == old(self).answers(),
    {
        match self.read_register(Registers::FirstUsageDate) {
            Ok(raw) => Ok(raw),
            Err(e) => Err(e),
        }
    }

    /// Write a new value to the first usage date register
    pub fn write_first_usage_date(&mut self, value: u16) -> (r: Result<(), Error>)
        ensures
            bus_result(*final(self), r),
            sent_write(*old(self), *final(self), Registers::FirstUsageDate, value),
    {
        self.write_register(Registers::FirstUsageDate, value)
    }

    /// Read the serial number MSB register
    pub fn read_serial_number_msb(&mut self) -> (r: Result<u16, Error>)
        ensures
            bus_result(*final(self), r),
            sent_read(*old(self), *final(self), Registers::SerialNumberMsb, 1),
            r matches Ok(v) ==> answered(*old(self), *final(self), 1) && v == last_word(
                *final(self),
            ),
            r.is_err() ==> final(self).answers() == old(self).answers(),
    {
        match self.read_register(Registers::SerialNumberMsb) {
            Ok(raw) => Ok(raw),
            Err(e) => Err(e),
        }
    }

    /// Write a new value to the serial number MSB register
    pub fn write_serial_number_msb(&mut self, value: u16) -> (r: Result<(), Error>)
        ensures
            bus_result(*final(self), r),
            sent_write(*old(self), *final(self), Registers::SerialNumberMsb, value),
    {
        self.write_register(Registers::SerialNumberMsb, value)
    }

    /// Read the serial number LSB register
    pub fn read_serial_number_lsb(&mut self) -> (r: Result<u16, Error>)
        ensures
            bus_result(*final(self), r),
            sent_read(*old(self), *final(self), Registers::SerialNumberLsb, 1),
            r matches Ok(v) ==> answered(*old(self), *final(self), 1) && v == last_word(
                *final(self),
            ),
            r.is_err() ==> final(self).answers() == old(self).answers(),
    {
        match self.read_register(Registers::SerialNumberLsb) {
            Ok(raw) => Ok(raw),
            Err(e) => Err(e),
        }
    }

    /// Write a new value to the serial number LSB register
    pub fn write_serial_number_lsb(&mut self, value: u16) -> (r: Result<(), Error>)
        ensures
            bus_result(*final(self), r),
            sent_write(*old(self), *final(self), Registers::SerialNumberLsb, value),
    {
        self.write_register(Registers::SerialNumberLsb, value)
    }

    /// Read the device name MSB register
    pub fn read_device_name_msb(&mut self) -> (r: Result<u16, Error>)
        ensures
            bus_result(*final(self), r),
            sent_read(*old(self), *final(self), Registers::DeviceNameMsb, 1),
            r matches Ok(v) ==> answered(*old(self), *final(self), 1) && v == last_word(
                *final(self),
            ),
            r.is_err() ==> final(self).answers() == old(self).answers(),
    {
        match self.read_register(Registers::DeviceNameMsb) {
            Ok(raw) => Ok(raw),
            Err(e) => Err(e),
        }
    }

    /// Write a new value to the device name MSB register
    pub fn write_device_name_msb(&mut self, value: u16) -> (r: Result<(), Error>)
        ensures
            bus_result(*final(self), r),
            sent_write(*old(self), *final(self), Registers::DeviceNameMsb, value),
    {
        self.write_register(Registers::DeviceNameMsb, value)
    }

    /// Read the device name LSB register
    pub fn read_device_name_lsb(&mut self) -> (r: Result<u16, Error>)
        ensures
            bus_result(*final(self), r),
            sent_read(*old(self), *final(self), Registers::DeviceNameLsb, 1),
            r matches Ok(v) ==> answered(*old(self), *final(self), 1) && v == last_word(
                *final(self),
            ),
            r.is_err() ==> final(self).answers() == old(self).answers(),
    {
        match self.read_register(Registers::DeviceNameLsb) {
            Ok(raw) => Ok(raw),
            Err(e) => Err(e),
        }
    }

    /// Write a new value to the device name LSB register
    pub fn write_device_name_lsb(&mut self, value: u16) -> (r: Result<(), Error>)
        ensures
            bus_result(*final(self), r),
            sent_write(*old(self), *final(self), Registers::DeviceNameLsb, value),
    {
        self.write_register(Registers::DeviceNameLsb, value)
    }

    /// Read the faults of the VCELL1 register
    pub fn read_vcell_1_faults(&mut self) -> (r: Result<VCell1Faults, Error>)
        ensures
            bus_result(*final(self), r),
            sent_read(*old(self), *final(self), Registers::VCell1, 1),
            r matches Ok(v) ==> answered(*old(self), *final(self), 1) && v.0 == last_word(
                *final(self),
            ),
            r.is_err() ==> final(self).answers() == old(self).answers(),
    {
        match self.read_register(Registers::VCell1) {
            Ok(raw) => Ok(VCell1Faults(raw)),
            Err(e) => Err(e),
        }
    }

    /// Read the VCELLSUM measurement register
    pub fn read_vcellsum(&mut self) -> (r: Result<VCellSum, Error>)
        ensures
            bus_result(*final(self), r),
            sent_read(*old(self), *final(self), Registers::VCellSum, 1),
            r matches Ok(v) ==> answered(*old(self), *final(self), 1) && v.0 == last_word(
                *final(self),
            ),
            r.is_err() ==> final(self).answers() == old(self).answers(),
    {
        match self.read_register(Registers::VCellSum) {
            Ok(raw) => Ok(VCellSum(raw)),
            Err(e) => Err(e),
        }
    }

    /// Read the VB measurement register
    pub fn read_vb(&mut self) -> (r: Result<VB, Error>)
        ensures
            bus_result(*final(self), r),
            sent_read(*old(self), *final(self), Registers::VB, 1),
            r matches Ok(v) ==> answered(*old(self), *final(self), 1) && v.0 == last_word(
                *final(self),
            ),
            r.is_err() ==> final(self).answers() == old(self).answers(),
    {
        match self.read_register(Registers::VB) {
            Ok(raw) => Ok(VB(raw)),
            Err(e) => Err(e),
        }
    }

    /// Read the NTC_GPIO register
    pub fn read_ntc_gpio(&mut self) -> (r: Result<NtcGpio, Error>)
        ensures
            bus_result(*final(self), r),
            sent_read(*old(self), *final(self), Registers::NtcGpio, 1),
            r matches Ok(v) ==> answered(*old(self), *final(self), 1) && v.0 == last_word(
                *final(self),
            ),
            r.is_err() ==> final(self).answers() == old(self).answers(),
    {
        match self.read_register(Registers::NtcGpio) {
            Ok(raw) => Ok(NtcGpio(raw)),
            Err(e) => Err(e),
        }
    }

    /// Read the die temperature register
    pub fn read_die_temp(&mut self) -> (r: Result<DieTemp, Error>)
        ensures
            bus_result(*final(self), r),
            sent_read(*old(self), *final(self), Registers::DieTemp, 1),
            r matches Ok(v) ==> answered(*old(self), *final(self), 1) && v.0 == last_word(
                *final(self),
            ),
            r.is_err() ==> final(self).answers() == old(self).answers(),
    {
        match self.read_register(Registers::DieTemp) {
            Ok(raw) => Ok(DieTemp(raw)),
            Err(e) => Err(e),
        }
    }

    /// Read the CC_ACC_LSB_CNTR register
    pub fn read_cc_acc_lsb_cntr(&mut self) -> (r: Result<CCAccLsbCntr, Error>)
        ensures
            bus_result(*final(self), r),
            sent_read(*old(self), *final(self), Registers::CCAccLsbCntr, 1),
            r matches Ok(v) ==> answered(*old(self), *final(self), 1) && v.0 == last_word(
                *final(self),
            ),
            r.is_err() ==> final(self).answers() == old(self).answers(),
    {
        match self.read_register(Registers::CCAccLsbCntr) {
            Ok(raw) => Ok(CCAccLsbCntr(raw)),
            Err(e) => Err(e),
        }
    }

    /// Read the CC_INST_MEAS register
    pub fn read_cc_inst_meas(&mut self) -> (r: Result<u16, Error>)
        ensures
            bus_result(*final(self), r),
            sent_read(*old(self), *final(self), Registers::CCInstMeas, 1),
            r matches Ok(v) ==> answered(*old(self), *final(self), 1) && v == last_word(*final(self)),
            r.is_err() ==> final(self).answers() == old(self).answers(),
    {
        self.read_register(Registers::CCInstMeas)
    }

    /// Read the CC_ACC_MSB register
    pub fn read_cc_acc_msb(&mut self) -> (r: Result<u16, Error>)
        ensures
            bus_result(*final(self), r),
            sent_read(*old(self), *final(self), Registers::CCAccMsb, 1),
            r matches Ok(v) ==> answered(*old(self), *final(self), 1) && v == last_word(*final(self)),
            r.is_err() ==> final(self).answers() == old(self).answers(),
    {
        self.read_register(Registers::CCAccMsb)
    }

    /// Write a new value to the CC_ACC_MSB register
    pub fn write_cc_acc_msb(&mut self, value: u16) -> (r: Result<(), Error>)
        ensures
            bus_result(*final(self), r),
            sent_write(*old(self), *final(self), Registers::CCAccMsb, value),
    {
        self.write_register(Registers::CCAccMsb, value)
    }

    /// Read one of the 5 VCell registers (1 indexed per device)
    pub fn read_vcell(&mut self, cell: u8) -> (r: Result<VCell, Error>)
        requires
            1 <= cell <= 5,
        ensures
            bus_result(*final(self), r),
            sent_read(*old(self), *final(self), vcell_register(cell), 1),
            r matches Ok(v) ==> answered(*old(self), *final(self), 1) && field(v.0, 12, 4) == cell
                && field(v.0, 0, 12) == field(last_word(*final(self)), 0, 12),
            r.is_err() ==> final(self).answers() == old(self).answers(),
    {
        let register = if cell == 1 {
            Registers::VCell1
        } else if cell == 2 {
            Registers::VCell2
        } else if cell == 3 {
            Registers::VCell3
        } else if cell == 4 {
            Registers::VCell4
        } else {
            Registers::VCell5
        };
        match self.read_register(register) {
            Ok(raw) => Ok(VCell::new(cell, raw).unwrap()),
            Err(e) => Err(e),
        }
    }

    /// Read the DIAG_OV_OT_UT register
    pub fn read_diag_ov_ot_ut(&mut self) -> (r: Result<DiagOvOtUt, Error>)
        ensures
            bus_result(*final(self), r),
            sent_read(*old(self), *final(self), Registers::DiagOvOtUt, 1),
            r matches Ok(v) ==> answered(*old(self), *final(self), 1) && v.0 == last_word(
                *final(self),
            ) & DiagOvOtUt::ALL_BITS,
            r.is_err() ==> final(self).answers() == old(self).answers(),
    {
        match self.read_register(Registers::DiagOvOtUt) {
            Ok(raw) => Ok(DiagOvOtUt::from_bits_truncate(raw)),
            Err(e) => Err(e),
        }
    }

    /// Write a new value to the DIAG_OV_OT_UT register
    pub fn write_diag_ov_ot_ut(&mut self, new_config: DiagOvOtUt) -> (r: Result<(), Error>)
        ensures
            bus_result(*final(self), r),
            sent_write(*old(self), *final(self), Registers::DiagOvOtUt, new_config.0),
    {
        self.write_register(Registers::DiagOvOtUt, new_config.0)
    }

    /// Read the DIAG_UV register
    pub fn read_diag_uv(&mut self) -> (r: Result<DiagUv, Error>)
        ensures
            bus_result(*final(self), r),
            sent_read(*old(self), *final(self), Registers::DiagUv, 1),
            r matches Ok(v) ==> answered(*old(self), *final(self), 1) && v.0 == last_word(
                *final(self),
            ) & DiagUv::ALL_BITS,
            r.is_err() ==> final(self).answers() == old(self).answers(),
    {
        match self.read_register(Registers::DiagUv) {
            Ok(raw) => Ok(DiagUv::from_bits_truncate(raw)),
            Err(e) => Err(e),
        }
    }

    /// Write a new value to the DIAG_UV register
    pub fn write_diag_uv(&mut self, new_config: DiagUv) -> (r: Result<(), Error>)
        ensures
            bus_result(*final(self), r),
            sent_write(*old(self), *final(self), Registers::DiagUv, new_config.0),
    {
        self.write_register(Registers::DiagUv, new_config.0)
    }

    /// Read the DIAG_CURR register
    pub fn read_diag_curr(&mut self) -> (r: Result<DiagCurr, Error>)
        ensures
            bus_result(*final(self), r),
            sent_read(*old(self), *final(self), Registers::DiagCurr, 1),
            r matches Ok(v) ==> answered(*old(self), *final(self), 1) && v.0 == last_word(
                *final(self),
            ) & DiagCurr::ALL_BITS,
            r.is_err() ==> final(self).answers() == old(self).answers(),
    {
        match self.read_register(Registers::DiagCurr) {
            Ok(raw) => Ok(DiagCurr::from_bits_truncate(raw)),
            Err(e) => Err(e),
        }
    }

    /// Write a new value to the DIAG_CURR register
    pub fn write_diag_curr(&mut self, new_config: DiagCurr) -> (r: Result<(), Error>)
        ensures
            bus_result(*final(self), r),
            sent_write(*old(self), *final(self), Registers::DiagCurr, new_config.0),
    {
        self.write_register(Registers::DiagCurr, new_config.0)
    }
}

} // verus!
