//! # Measurement cycle
//! The decisions of one measurement cycle, as a state machine. The driver that owns the bus
//! and the signal lines performs each `Step` that the cycle hands out and reports what came
//! of it as an `Event`; the cycle decides what to do next.
//!
//! A cycle waits for the first of three events: the ready edge, the fault line going low, or
//! the deadline. On the ready edge it reads the measurement block and completes. On a fault
//! it reads DIAG_OV_OT_UT and DIAG_UV, then DIAG_CURR, clears the three registers (in that
//! order), reads the measurement block, and waits for the next ready edge before it
//! completes. At the deadline it reads nothing and reports a timeout, which carries no
//! measurement.
use crate::bitfield::field;
use crate::measurement::{
    with_block, with_curr, with_ov_ot_ut, with_uv, zero_measurement, Measurement,
    MEASUREMENT_BLOCK_LEN,
};
use crate::registers::{Cfg1FiltersCycles, DiagCurr, DiagOvOtUt, DiagUv, Registers};
use vstd::prelude::*;

verus! {

/// Deadline of a cycle when the measurement cycle is disabled, in ms.
pub const DEFAULT_MEASUREMENT_TIMEOUT_MS: u32 = 300;

/// Where a measurement cycle stands.
#[derive(Clone, Copy, Debug, PartialEq, Eq, Structural)]
pub enum Phase {
    /// Waiting for the ready edge, the fault line or the deadline
    Waiting,
    /// Reading DIAG_OV_OT_UT and DIAG_UV
    ReadingDiagnostics,
    /// Reading DIAG_CURR
    ReadingCurrentDiagnostics,
    /// Clearing DIAG_OV_OT_UT
    ClearingDiagOvOtUt,
    /// Clearing DIAG_UV
    ClearingDiagUv,
    /// Clearing DIAG_CURR
    ClearingDiagCurr,
    /// Reading the measurement block; `after_fault` when the cycle started with a fault
    ReadingMeasurements { after_fault: bool },
    /// Waiting for the ready edge that follows a fault
    AwaitingReady,
    /// The cycle completed with a measurement
    Finished,
    /// The deadline came first
    Expired,
}

/// What the driver must do next for the cycle.
#[derive(Clone, Copy, Debug, PartialEq, Eq, Structural)]
pub enum Step {
    /// Wait for the first of the ready edge, the fault line going low, and `timeout_ms`
    AwaitEvents { timeout_ms: u32 },
    /// Read `count` consecutive registers from `start` in one transaction
    ReadRegisters { start: Registers, count: usize },
    /// Write `value` to `register`
    WriteRegister { register: Registers, value: u16 },
    /// Wait for the next ready edge
    AwaitReadyEdge,
    /// The cycle is over, with this measurement
    Complete(Measurement),
    /// The cycle is over: the device did not signal in time, and nothing was read
    TimedOut,
}

/// What came of the last step.
#[derive(Clone, Debug)]
pub enum Event {
    /// The ready line had an edge
    ReadyEdge,
    /// The fault line went low
    FaultAsserted,
    /// The deadline elapsed
    DeadlineElapsed,
    /// The registers asked for were read, in order
    RegistersRead(Vec<u16>),
    /// The register write completed
    RegisterWritten,
}

/// One measurement cycle.
#[derive(Clone, Copy, Debug)]
pub struct MeasurementCycle {
    /// Where the cycle stands
    pub phase: Phase,
    /// The values collected so far
    pub measurement: Measurement,
    /// Number of cells of the pack
    pub cell_count: u8,
    /// Deadline of the wait, in ms
    pub timeout_ms: u32,
}

/// The deadline of a cycle: the configured measurement cycle period (field × 10 ms), or
/// `DEFAULT_MEASUREMENT_TIMEOUT_MS` when the cycle is disabled.
pub open spec fn timeout_of(cycles: Cfg1FiltersCycles) -> u32 {
    if field(cycles.0, 7, 5) == 0 {
        DEFAULT_MEASUREMENT_TIMEOUT_MS
    } else {
        (field(cycles.0, 7, 5) * 10) as u32
    }
}

/// The deadline of a cycle under the configuration `cycles`.
pub fn measurement_timeout_ms(cycles: Cfg1FiltersCycles) -> (r: u32)
    ensures
        r == timeout_of(cycles),
{
    let cycle = cycles.get_t_meas_cycle();
    if cycle.is_disabled() {
        DEFAULT_MEASUREMENT_TIMEOUT_MS
    } else {
        cycle.period_ms() as u32
    }
}

/// The step that the cycle waits on in its phase.
pub open spec fn pending_step(c: MeasurementCycle) -> Step {
    match c.phase {
        Phase::Waiting => Step::AwaitEvents { timeout_ms: c.timeout_ms },
        Phase::ReadingDiagnostics => Step::ReadRegisters { start: Registers::DiagOvOtUt, count: 2 },
        Phase::ReadingCurrentDiagnostics => Step::ReadRegisters {
            start: Registers::DiagCurr,
            count: 1,
        },
        Phase::ClearingDiagOvOtUt => Step::WriteRegister {
            register: Registers::DiagOvOtUt,
            value: DiagOvOtUt::ALL_BITS,
        },
        Phase::ClearingDiagUv => Step::WriteRegister {
            register: Registers::DiagUv,
            value: DiagUv::ALL_BITS,
        },
        Phase::ClearingDiagCurr => Step::WriteRegister {
            register: Registers::DiagCurr,
            value: DiagCurr::ALL_BITS,
        },
        Phase::ReadingMeasurements { .. } => Step::ReadRegisters {
            start: Registers::VCell1,
            count: MEASUREMENT_BLOCK_LEN,
        },
        Phase::AwaitingReady => Step::AwaitReadyEdge,
        Phase::Finished => Step::Complete(c.measurement),
        Phase::Expired => Step::TimedOut,
    }
}

/// `c` in phase `p`.
pub open spec fn in_phase(c: MeasurementCycle, p: Phase) -> MeasurementCycle {
    MeasurementCycle { phase: p, ..c }
}

/// `c` in phase `p` with measurement `m`.
pub open spec fn in_phase_with(c: MeasurementCycle, p: Phase, m: Measurement) -> MeasurementCycle {
    MeasurementCycle { phase: p, measurement: m, ..c }
}

/// The cycle after `e`, and the step that it hands out. An event that does not answer the
/// pending step leaves the cycle as it is and hands out the pending step again.
pub open spec fn transition(c: MeasurementCycle, e: Event) -> (MeasurementCycle, Step) {
    let same = (c, pending_step(c));
    match c.phase {
        Phase::Waiting => match e {
            Event::ReadyEdge => {
                let n = in_phase(c, Phase::ReadingMeasurements { after_fault: false });
                (n, pending_step(n))
            },
            Event::FaultAsserted => {
                let n = in_phase(c, Phase::ReadingDiagnostics);
                (n, pending_step(n))
            },
            Event::DeadlineElapsed => (in_phase(c, Phase::Expired), Step::TimedOut),
            _ => same,
        },
        Phase::ReadingDiagnostics => match e {
            Event::RegistersRead(v) => if v@.len() == 2 {
                let m = with_uv(
                    with_ov_ot_ut(c.measurement, v@[0], c.cell_count),
                    v@[1],
                    c.cell_count,
                );
                let n = in_phase_with(c, Phase::ReadingCurrentDiagnostics, m);
                (n, pending_step(n))
            } else {
                same
            },
            _ => same,
        },
        Phase::ReadingCurrentDiagnostics => match e {
            Event::RegistersRead(v) => if v@.len() == 1 {
                let n = in_phase_with(
                    c,
                    Phase::ClearingDiagOvOtUt,
                    with_curr(c.measurement, v@[0]),
                );
                (n, pending_step(n))
            } else {
                same
            },
            _ => same,
        },
        Phase::ClearingDiagOvOtUt => match e {
            Event::RegisterWritten => {
                let n = in_phase(c, Phase::ClearingDiagUv);
                (n, pending_step(n))
            },
            _ => same,
        },
        Phase::ClearingDiagUv => match e {
            Event::RegisterWritten => {
                let n = in_phase(c, Phase::ClearingDiagCurr);
                (n, pending_step(n))
            },
            _ => same,
        },
        Phase::ClearingDiagCurr => match e {
            Event::RegisterWritten => {
                let n = in_phase(c, Phase::ReadingMeasurements { after_fault: true });
                (n, pending_step(n))
            },
            _ => same,
        },
        Phase::ReadingMeasurements { after_fault } => match e {
            Event::RegistersRead(v) => if v@.len() == MEASUREMENT_BLOCK_LEN {
                let m = with_block(c.measurement, v@, c.cell_count);
                if after_fault {
                    let n = in_phase_with(c, Phase::AwaitingReady, m);
                    (n, pending_step(n))
                } else {
                    let n = in_phase_with(c, Phase::Finished, m);
                    (n, Step::Complete(m))
                }
            } else {
                same
            },
            _ => same,
        },
        Phase::AwaitingReady => match e {
            Event::ReadyEdge => {
                let n = in_phase(c, Phase::Finished);
                (n, Step::Complete(c.measurement))
            },
            _ => same,
        },
        Phase::Finished => same,
        Phase::Expired => same,
    }
}

/// On a ready edge the cycle reads the measurement block in one transaction and completes
/// with its values. It neither reads nor clears a diagnostic register on the way.
pub proof fn lemma_ready_path(c: MeasurementCycle, block: Vec<u16>)
    requires
        c.phase == (Phase::Waiting),
        block@.len() == MEASUREMENT_BLOCK_LEN,
    ensures
        ({
            let (c1, s1) = transition(c, Event::ReadyEdge);
            let (c2, s2) = transition(c1, Event::RegistersRead(block));
            &&& s1 == (Step::ReadRegisters { start: Registers::VCell1, count: MEASUREMENT_BLOCK_LEN })
            &&& s2 == Step::Complete(with_block(c.measurement, block@, c.cell_count))
            &&& c2.phase == Phase::Finished
        }),
{
}

/// On a fault the bus operations come in this order: read DIAG_OV_OT_UT and DIAG_UV, read
/// DIAG_CURR, clear DIAG_OV_OT_UT, clear DIAG_UV, clear DIAG_CURR, read the measurement block,
/// wait for the next ready edge. Only then does the cycle complete, with the faults of the
/// three registers and the values of the block in one measurement.
pub proof fn lemma_fault_path_order(
    c: MeasurementCycle,
    diags: Vec<u16>,
    diag_curr: Vec<u16>,
    block: Vec<u16>,
)
    requires
        c.phase == (Phase::Waiting),
        diags@.len() == 2,
        diag_curr@.len() == 1,
        block@.len() == MEASUREMENT_BLOCK_LEN,
    ensures
        ({
            let cc = c.cell_count;
            let (c1, s1) = transition(c, Event::FaultAsserted);
            let (c2, s2) = transition(c1, Event::RegistersRead(diags));
            let (c3, s3) = transition(c2, Event::RegistersRead(diag_curr));
            let (c4, s4) = transition(c3, Event::RegisterWritten);
            let (c5, s5) = transition(c4, Event::RegisterWritten);
            let (c6, s6) = transition(c5, Event::RegisterWritten);
            let (c7, s7) = transition(c6, Event::RegistersRead(block));
            let (c8, s8) = transition(c7, Event::ReadyEdge);
            &&& s1 == (Step::ReadRegisters { start: Registers::DiagOvOtUt, count: 2 })
            &&& s2 == (Step::ReadRegisters { start: Registers::DiagCurr, count: 1 })
            &&& s3 == (Step::WriteRegister {
                register: Registers::DiagOvOtUt,
                value: DiagOvOtUt::ALL_BITS,
            })
            &&& s4 == (Step::WriteRegister { register: Registers::DiagUv, value: DiagUv::ALL_BITS })
            &&& s5 == (Step::WriteRegister {
                register: Registers::DiagCurr,
                value: DiagCurr::ALL_BITS,
            })
            &&& s6 == (Step::ReadRegisters { start: Registers::VCell1, count: MEASUREMENT_BLOCK_LEN })
            &&& s7 == Step::AwaitReadyEdge
            &&& s8 == Step::Complete(
                with_block(
                    with_curr(
                        with_uv(with_ov_ot_ut(c.measurement, diags@[0], cc), diags@[1], cc),
                        diag_curr@[0],
                    ),
                    block@,
                    cc,
                ),
            )
            &&& c8.phase == Phase::Finished
        }),
{
}

/// When the deadline comes first the cycle reads nothing and reports a timeout, which holds
/// no measurement; from then on every event gets the same answer, until the cycle begins
/// again with an empty measurement.
pub proof fn lemma_timeout_is_distinct(c: MeasurementCycle, e: Event)
    requires
        c.phase == (Phase::Waiting),
    ensures
        ({
            let (c1, s1) = transition(c, Event::DeadlineElapsed);
            &&& s1 == Step::TimedOut
            &&& c1.phase == Phase::Expired
            &&& transition(c1, e) == (c1, Step::TimedOut)
        }),
{
}

/// A cycle that is over stays over: whatever comes, a finished cycle answers with the same
/// measurement and an expired one with the timeout.
pub proof fn lemma_outcome_is_final(c: MeasurementCycle, e: Event)
    requires
        c.phase == (Phase::Finished) || c.phase == (Phase::Expired),
    ensures
        c.phase == (Phase::Finished) ==> transition(c, e) == (c, Step::Complete(c.measurement)),
        c.phase == (Phase::Expired) ==> transition(c, e) == (c, Step::TimedOut),
{
}

impl MeasurementCycle {
    /// A cycle for a pack of `cell_count` cells under the measurement configuration `cycles`.
    /// It starts waiting, with an empty measurement.
    pub fn new(cell_count: u8, cycles: Cfg1FiltersCycles) -> (r: Self)
        requires
            3 <= cell_count <= 5,
        ensures
            r.phase == (Phase::Waiting),
            r.measurement == zero_measurement(),
            r.cell_count == cell_count,
            r.timeout_ms == timeout_of(cycles),
    {
        MeasurementCycle {
            phase: Phase::Waiting,
            measurement: Measurement::default(),
            cell_count,
            timeout_ms: measurement_timeout_ms(cycles),
        }
    }

    /// Starts the cycle over: waiting, with an empty measurement. Returns the first step.
    pub fn begin(&mut self) -> (r: Step)
        ensures
            final(self).phase == (Phase::Waiting),
            final(self).measurement == zero_measurement(),
            final(self).cell_count == old(self).cell_count,
            final(self).timeout_ms == old(self).timeout_ms,
            r == (Step::AwaitEvents { timeout_ms: old(self).timeout_ms }),
    {
        self.phase = Phase::Waiting;
        self.measurement = Measurement::default();
        Step::AwaitEvents { timeout_ms: self.timeout_ms }
    }

    /// The step that the cycle waits on.
    pub fn pending(&self) -> (r: Step)
        ensures
            r == pending_step(*self),
    {
        match self.phase {
            Phase::Waiting => Step::AwaitEvents { timeout_ms: self.timeout_ms },
            Phase::ReadingDiagnostics => Step::ReadRegisters {
                start: Registers::DiagOvOtUt,
                count: 2,
            },
            Phase::ReadingCurrentDiagnostics => Step::ReadRegisters {
                start: Registers::DiagCurr,
                count: 1,
            },
            Phase::ClearingDiagOvOtUt => Step::WriteRegister {
                register: Registers::DiagOvOtUt,
                value: DiagOvOtUt::ALL_BITS,
            },
            Phase::ClearingDiagUv => Step::WriteRegister {
                register: Registers::DiagUv,
                value: DiagUv::ALL_BITS,
            },
            Phase::ClearingDiagCurr => Step::WriteRegister {
                register: Registers::DiagCurr,
                value: DiagCurr::ALL_BITS,
            },
            Phase::ReadingMeasurements { .. } => Step::ReadRegisters {
                start: Registers::VCell1,
                count: MEASUREMENT_BLOCK_LEN,
            },
            Phase::AwaitingReady => Step::AwaitReadyEdge,
            Phase::Finished => Step::Complete(self.measurement),
            Phase::Expired => Step::TimedOut,
        }
    }

    /// Takes in what came of the last step and returns the next step.
    pub fn advance(&mut self, event: Event) -> (r: Step)
        ensures
            (*final(self), r) == transition(*old(self), event),
    {
        match self.phase {
            Phase::Waiting => match event {
                Event::ReadyEdge => {
                    self.phase = Phase::ReadingMeasurements { after_fault: false };
                    self.pending()
                },
                Event::FaultAsserted => {
                    self.phase = Phase::ReadingDiagnostics;
                    self.pending()
                },
                Event::DeadlineElapsed => {
                    self.phase = Phase::Expired;
                    Step::TimedOut
                },
                _ => self.pending(),
            },
            Phase::ReadingDiagnostics => match event {
                Event::RegistersRead(v) => {
                    if v.len() == 2 {
                        self.measurement.apply_diag_ov_ot_ut(DiagOvOtUt(v[0]), self.cell_count);
                        self.measurement.apply_diag_uv(DiagUv(v[1]), self.cell_count);
                        self.phase = Phase::ReadingCurrentDiagnostics;
                    }
                    self.pending()
                },
                _ => self.pending(),
            },
            Phase::ReadingCurrentDiagnostics => match event {
                Event::RegistersRead(v) => {
                    if v.len() == 1 {
                        self.measurement.apply_diag_curr(DiagCurr(v[0]));
                        self.phase = Phase::ClearingDiagOvOtUt;
                    }
                    self.pending()
                },
                _ => self.pending(),
            },
            Phase::ClearingDiagOvOtUt => match event {
                Event::RegisterWritten => {
                    self.phase = Phase::ClearingDiagUv;
                    self.pending()
                },
                _ => self.pending(),
            },
            Phase::ClearingDiagUv => match event {
                Event::RegisterWritten => {
                    self.phase = Phase::ClearingDiagCurr;
                    self.pending()
                },
                _ => self.pending(),
            },
            Phase::ClearingDiagCurr => match event {
                Event::RegisterWritten => {
                    self.phase = Phase::ReadingMeasurements { after_fault: true };
                    self.pending()
                },
                _ => self.pending(),
            },
            Phase::ReadingMeasurements { after_fault } => match event {
                Event::RegistersRead(v) => {
                    if v.len() == MEASUREMENT_BLOCK_LEN {
                        self.measurement.apply_measurement_block(v.as_slice(), self.cell_count);
                        if after_fault {
                            self.phase = Phase::AwaitingReady;
                        } else {
                            self.phase = Phase::Finished;
                        }
                    }
                    self.pending()
                },
                _ => self.pending(),
            },
            Phase::AwaitingReady => match event {
                Event::ReadyEdge => {
                    self.phase = Phase::Finished;
                    self.pending()
                },
                _ => self.pending(),
            },
            Phase::Finished => self.pending(),
            Phase::Expired => self.pending(),
        }
    }
}

} // verus!
