use l9961::acquisition::{measurement_timeout_ms, Phase};
use l9961::registers::{Cfg1FiltersCycles, DiagCurr, DiagOvOtUt, DiagUv, TMeasCycle};
use l9961::{Event, MeasurementCycle, Registers, Step};

fn block() -> Vec<u16> {
    vec![3439, 3440, 3441, 0, 0, 10300, 3442, 4094, 1000]
}

#[test]
fn ready_edge_resolves_through_the_ready_path() {
    let mut cycle = MeasurementCycle::new(3, Cfg1FiltersCycles::default());
    let mut steps = vec![cycle.begin()];
    assert_eq!(steps[0], Step::AwaitEvents { timeout_ms: 300 });
    // The ready edge comes at 10 ms, before the 300 ms deadline; the fault line stays high.
    steps.push(cycle.advance(Event::ReadyEdge));
    steps.push(cycle.advance(Event::RegistersRead(block())));
    assert_eq!(steps[1], Step::ReadRegisters { start: Registers::VCell1, count: 9 });
    match steps[2] {
        Step::Complete(m) => {
            assert_eq!(m.cell_1.voltage_mv, 4195);
            assert_eq!(m.pack_faults.0, 0);
        }
        other => panic!("unexpected step {:?}", other),
    }
    for s in steps.iter() {
        assert!(!matches!(s, Step::WriteRegister { .. }));
        assert!(!matches!(s, Step::ReadRegisters { start: Registers::DiagOvOtUt, .. }));
    }
    assert_eq!(cycle.phase, Phase::Finished);
}

#[test]
fn fault_path_steps_come_in_order() {
    let mut cycle = MeasurementCycle::new(5, Cfg1FiltersCycles::default());
    cycle.begin();
    let s1 = cycle.advance(Event::FaultAsserted);
    let s2 = cycle.advance(Event::RegistersRead(vec![DiagOvOtUt::CELL1_OV, DiagUv::VB_UV]));
    let s3 = cycle.advance(Event::RegistersRead(vec![DiagCurr::OVC_DCHG]));
    let s4 = cycle.advance(Event::RegisterWritten);
    let s5 = cycle.advance(Event::RegisterWritten);
    let s6 = cycle.advance(Event::RegisterWritten);
    let s7 = cycle.advance(Event::RegistersRead(block()));
    let s8 = cycle.advance(Event::ReadyEdge);
    assert_eq!(s1, Step::ReadRegisters { start: Registers::DiagOvOtUt, count: 2 });
    assert_eq!(s2, Step::ReadRegisters { start: Registers::DiagCurr, count: 1 });
    assert_eq!(s3, Step::WriteRegister { register: Registers::DiagOvOtUt, value: 0xFFFF });
    assert_eq!(s4, Step::WriteRegister { register: Registers::DiagUv, value: 0xFFFF });
    assert_eq!(s5, Step::WriteRegister { register: Registers::DiagCurr, value: 0x01FF });
    assert_eq!(s6, Step::ReadRegisters { start: Registers::VCell1, count: 9 });
    assert_eq!(s7, Step::AwaitReadyEdge);
    match s8 {
        Step::Complete(m) => {
            assert_eq!(m.cell_1.faults.0, 0x01);
            assert_eq!(m.pack_faults.0, 0x0002 | 0x0400);
            assert_eq!(m.cell_1.voltage_mv, 4195);
            assert_eq!(m.vbat_mv, 20996);
        }
        other => panic!("unexpected step {:?}", other),
    }
}

#[test]
fn timeout_is_reported_without_a_measurement() {
    let mut cycle = MeasurementCycle::new(4, Cfg1FiltersCycles::default());
    cycle.begin();
    cycle.advance(Event::ReadyEdge);
    cycle.advance(Event::RegistersRead(block()));
    assert!(matches!(cycle.pending(), Step::Complete(_)));
    assert_eq!(cycle.begin(), Step::AwaitEvents { timeout_ms: 300 });
    assert_eq!(cycle.advance(Event::DeadlineElapsed), Step::TimedOut);
    assert_eq!(cycle.advance(Event::ReadyEdge), Step::TimedOut);
    assert_eq!(cycle.advance(Event::RegistersRead(block())), Step::TimedOut);
    assert_eq!(cycle.phase, Phase::Expired);
}

#[test]
fn unexpected_events_repeat_the_pending_step() {
    let mut cycle = MeasurementCycle::new(3, Cfg1FiltersCycles::default());
    cycle.begin();
    assert_eq!(cycle.advance(Event::RegisterWritten), Step::AwaitEvents { timeout_ms: 300 });
    cycle.advance(Event::FaultAsserted);
    let again = cycle.advance(Event::RegistersRead(vec![1, 2, 3]));
    assert_eq!(again, Step::ReadRegisters { start: Registers::DiagOvOtUt, count: 2 });
    assert_eq!(cycle.phase, Phase::ReadingDiagnostics);
}

#[test]
fn deadline_follows_the_configured_cycle() {
    let mut c = Cfg1FiltersCycles::default();
    assert_eq!(measurement_timeout_ms(c), 300);
    c.set_t_meas_cycle(TMeasCycle::new_ms(100));
    assert_eq!(measurement_timeout_ms(c), 100);
    assert_eq!(measurement_timeout_ms(Cfg1FiltersCycles::deactivate()), 300);
    assert_eq!(MeasurementCycle::new(3, c).timeout_ms, 100);
}
