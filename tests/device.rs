use embedded_hal::i2c::{ErrorKind, ErrorType, I2c, NoAcknowledgeSource, Operation};
use std::cell::{Cell, RefCell};
use std::rc::Rc;
use l9961::config::Config;
use l9961::registers::{Cfg1FiltersCycles, DevAddr, VCellOvTh};
use l9961::{Error, Event, Registers, Step, L9961};

#[derive(Debug, Clone, PartialEq)]
enum Op {
    WriteRead { address: u8, write: Vec<u8>, read_len: usize },
    Write { address: u8, bytes: Vec<u8> },
}

/// A device on a bus: a register file, the log of transactions it saw, and the number of
/// transactions after which it stops acknowledging. The test keeps handles to the log and to
/// the failure point.
struct MockBus {
    registers: [u16; 48],
    log: Rc<RefCell<Vec<Op>>>,
    fail_after: Rc<Cell<Option<usize>>>,
}

impl MockBus {
    fn new() -> Self {
        MockBus {
            registers: [0; 48],
            log: Rc::new(RefCell::new(Vec::new())),
            fail_after: Rc::new(Cell::new(None)),
        }
    }
}

impl ErrorType for MockBus {
    type Error = ErrorKind;
}

impl I2c for MockBus {
    fn transaction(&mut self, address: u8, operations: &mut [Operation<'_>]) -> Result<(), ErrorKind> {
        if let Some(n) = self.fail_after.get() {
            if self.log.borrow().len() >= n {
                return Err(ErrorKind::NoAcknowledge(NoAcknowledgeSource::Address));
            }
        }
        match operations {
            [Operation::Write(w), Operation::Read(r)] => {
                self.log.borrow_mut().push(Op::WriteRead { address, write: w.to_vec(), read_len: r.len() });
                let start = w[0] as usize;
                for i in 0..r.len() / 2 {
                    let value = self.registers[start + i];
                    r[2 * i] = (value >> 8) as u8;
                    r[2 * i + 1] = value as u8;
                }
            }
            [Operation::Write(w)] => {
                self.log.borrow_mut().push(Op::Write { address, bytes: w.to_vec() });
                if w.len() == 3 {
                    self.registers[w[0] as usize] = ((w[1] as u16) << 8) | w[2] as u16;
                }
            }
            _ => unreachable!(),
        }
        Ok(())
    }
}

type Log = Rc<RefCell<Vec<Op>>>;

fn device(bus: MockBus) -> (L9961<MockBus>, Log, Rc<Cell<Option<usize>>>) {
    let log = bus.log.clone();
    let fail = bus.fail_after.clone();
    (L9961::new(bus, Config::default(), 3).unwrap(), log, fail)
}

#[test]
fn chip_id_and_threshold_end_to_end() {
    let mut bus = MockBus::new();
    bus.registers[0x00] = 0x0034;
    let (mut d, log, fail) = device(bus);
    let id = d.read_chip_id().unwrap();
    assert_eq!(id.metal_id(), 0x4);
    assert_eq!(id.silicon_id(), 0x3);
    d.write_vcell_ov_th(VCellOvTh::new(215, 10).unwrap()).unwrap();
    let back = d.read_vcell_ov_th().unwrap();
    assert_eq!(back.0, 0x0AD7);
    assert_eq!(back.get_vcell_ov_th(), 215);
    assert_eq!(back.get_ncell_ov_cnt_th(), 10);
    let log = log.borrow().clone();
    assert_eq!(log[0], Op::WriteRead { address: 0x49, write: vec![0x00], read_len: 2 });
    assert_eq!(log[1], Op::Write { address: 0x49, bytes: vec![0x06, 0x0A, 0xD7] });
    assert_eq!(log[2], Op::WriteRead { address: 0x49, write: vec![0x06], read_len: 2 });
}

#[test]
fn write_device_address_moves_the_driver() {
    let (mut d, log, _fail) = device(MockBus::new());
    d.write_device_address(DevAddr(0x21)).unwrap();
    d.read_chip_id().unwrap();
    let log = log.borrow().clone();
    assert_eq!(log[0], Op::Write { address: 0x49, bytes: vec![0x03, 0x00, 0x21] });
    assert_eq!(log[1], Op::WriteRead { address: 0x21, write: vec![0x00], read_len: 2 });
}

#[test]
fn failed_device_address_write_keeps_the_address() {
    let mut bus = MockBus::new();
    bus.fail_after.set(Some(0));
    let (mut d, log, fail) = device(bus);
    assert_eq!(
        d.write_device_address(DevAddr(0x21)),
        Err(Error::I2CError(ErrorKind::NoAcknowledge(NoAcknowledgeSource::Address)))
    );
    fail.set(None);
    d.read_chip_id().unwrap();
    let log = log.borrow().clone();
    assert_eq!(log[0], Op::WriteRead { address: 0x49, write: vec![0x00], read_len: 2 });
}

#[test]
fn bus_errors_are_reported() {
    let mut bus = MockBus::new();
    bus.fail_after.set(Some(0));
    let (mut d, log, fail) = device(bus);
    assert!(matches!(d.read_vb(), Err(Error::I2CError(_))));
    assert!(matches!(d.write_cfg2_enables(l9961::registers::Cfg2Enables(1)), Err(Error::I2CError(_))));
}

#[test]
fn cell_count_is_checked() {
    assert!(L9961::new(MockBus::new(), Config::default(), 2).is_none());
    assert!(L9961::new(MockBus::new(), Config::default(), 6).is_none());
    assert_eq!(L9961::new(MockBus::new(), Config::default(), 5).unwrap().cell_count(), 5);
}

#[test]
fn clear_all_faults_writes_all_ones() {
    let (mut d, log, _fail) = device(MockBus::new());
    d.clear_all_faults().unwrap();
    let log = log.borrow().clone();
    assert_eq!(
        log,
        vec![
            Op::Write { address: 0x49, bytes: vec![0x2A, 0xFF, 0xFF] },
            Op::Write { address: 0x49, bytes: vec![0x2F, 0x01, 0xFF] },
            Op::Write { address: 0x49, bytes: vec![0x2B, 0xFF, 0xFF] },
        ]
    );
}

#[test]
fn clear_all_faults_stops_at_the_first_failure() {
    let mut bus = MockBus::new();
    bus.fail_after.set(Some(1));
    let (mut d, log, fail) = device(bus);
    assert!(d.clear_all_faults().is_err());
    assert_eq!(log.borrow().clone().len(), 1);
}

#[test]
fn mask_all_faults_writes_all_masks() {
    let (mut d, log, _fail) = device(MockBus::new());
    d.mask_all_faults().unwrap();
    let log = log.borrow().clone();
    assert_eq!(
        log,
        vec![
            Op::Write { address: 0x49, bytes: vec![0x15, 0x0F, 0xFF] },
            Op::Write { address: 0x49, bytes: vec![0x13, 0x7F, 0xFF] },
            Op::Write { address: 0x49, bytes: vec![0x14, 0x00, 0x7F] },
        ]
    );
}

#[test]
fn measurements_are_enabled_and_disabled_through_the_cycle_period() {
    let (mut d, log, _fail) = device(MockBus::new());
    d.enable_measurements().unwrap();
    d.disable_measurements().unwrap();
    let log = log.borrow().clone();
    assert_eq!(log[0], Op::Write { address: 0x49, bytes: vec![0x02, 0x0F, 0x4A] });
    assert_eq!(log[1], Op::Write { address: 0x49, bytes: vec![0x02, 0x00, 0x00] });
}

#[test]
fn apply_config_programs_every_threshold() {
    let (mut d, log, _fail) = device(MockBus::new());
    d.apply_config().unwrap();
    let log = log.borrow().clone();
    assert_eq!(log.len(), 11);
    assert_eq!(log[0], Op::Write { address: 0x49, bytes: vec![0x03, 0x00, 0x49] });
    assert_eq!(log[1], Op::Write { address: 0x49, bytes: vec![0x06, 0x0A, 215] });
    assert_eq!(log[5], Op::Write { address: 0x49, bytes: vec![0x0A, 0x0A, 215] });
    assert_eq!(log[7], Op::Write { address: 0x49, bytes: vec![0x0C, 0x00, 10] });
    assert_eq!(log[9], Op::Write { address: 0x49, bytes: vec![0x0E, 0xAF, 0xFF] });
}

#[test]
fn commands_write_their_codes() {
    let (mut d, log, _fail) = device(MockBus::new());
    d.download_configuration_from_nvm().unwrap();
    d.upload_configuration_to_nvm().unwrap();
    d.go_2_ship().unwrap();
    d.go_2_standby().unwrap();
    d.fuse_trig_arm().unwrap();
    d.fuse_trig_fire().unwrap();
    let log = log.borrow().clone();
    assert_eq!(log[0], Op::Write { address: 0x49, bytes: vec![0x20, 0x55, 0x55] });
    assert_eq!(log[1], Op::Write { address: 0x49, bytes: vec![0x20, 0xAA, 0xAA] });
    assert_eq!(log[2], Op::Write { address: 0x49, bytes: vec![0x21, 0x20, 0x00] });
    assert_eq!(log[5], Op::Write { address: 0x49, bytes: vec![0x24, 0x20, 0x00] });
}

#[test]
fn burst_read_decodes_big_endian_words() {
    let mut bus = MockBus::new();
    bus.registers[0x21] = 0x1234;
    bus.registers[0x22] = 0xABCD;
    let (mut d, log, fail) = device(bus);
    assert_eq!(d.read_registers(Registers::VCell1, 2).unwrap(), vec![0x1234, 0xABCD]);
    let log = log.borrow().clone();
    assert_eq!(log[0], Op::WriteRead { address: 0x49, write: vec![0x21], read_len: 4 });
    assert_eq!(l9961::bus::words_from_be_bytes(&[0x00, 0x34, 0xFF]), vec![0x0034]);
    assert_eq!(l9961::bus::write_frame(Registers::VCellOvTh, 0x0AD7), [0x06, 0x0A, 0xD7]);
}

#[test]
fn fault_cycle_bus_operations_come_in_order() {
    let mut bus = MockBus::new();
    bus.registers[0x2A] = 0x0001;
    bus.registers[0x2B] = 0x0400;
    bus.registers[0x2F] = 0x0004;
    bus.registers[0x21] = 3439;
    let (mut d, log, fail) = device(bus);
    let mut cycle = d.measurement_cycle();
    let mut step = cycle.begin();
    assert_eq!(step, Step::AwaitEvents { timeout_ms: 300 });
    step = cycle.advance(Event::FaultAsserted);
    let mut waits = Vec::new();
    let result = loop {
        match step {
            Step::Complete(m) => break m,
            Step::AwaitReadyEdge => {
                waits.push(log.borrow().clone().len());
                step = cycle.advance(Event::ReadyEdge);
            }
            other => {
                let event = d.perform_bus_step(other).unwrap().unwrap();
                step = cycle.advance(event);
            }
        }
    };
    let log = log.borrow().clone();
    assert_eq!(
        log,
        vec![
            Op::WriteRead { address: 0x49, write: vec![0x2A], read_len: 4 },
            Op::WriteRead { address: 0x49, write: vec![0x2F], read_len: 2 },
            Op::Write { address: 0x49, bytes: vec![0x2A, 0xFF, 0xFF] },
            Op::Write { address: 0x49, bytes: vec![0x2B, 0xFF, 0xFF] },
            Op::Write { address: 0x49, bytes: vec![0x2F, 0x01, 0xFF] },
            Op::WriteRead { address: 0x49, write: vec![0x21], read_len: 18 },
        ]
    );
    assert_eq!(waits, vec![6]);
    assert_eq!(result.cell_1.faults.0, 0x01);
    assert_eq!(result.pack_faults.0, 0x0002 | 0x0400);
    assert_eq!(result.cell_1.voltage_mv, 4195);
    assert!(d.perform_bus_step(Step::AwaitReadyEdge).unwrap().is_none());
    let _ = Cfg1FiltersCycles::default();
}

#[test]
fn configure_voltage_thresholds_stops_at_the_first_failure() {
    let bus = MockBus::new();
    bus.fail_after.set(Some(2));
    let (mut d, log, _fail) = device(bus);
    let thresholds = Config::default().voltage_thresholds;
    assert!(d.configure_voltage_thresholds(thresholds).is_err());
    let log = log.borrow().clone();
    assert_eq!(
        log,
        vec![
            Op::Write { address: 0x49, bytes: vec![0x06, 0x0A, 215] },
            Op::Write { address: 0x49, bytes: vec![0x07, 0x0A, 153] },
        ]
    );
}

#[test]
fn apply_config_writes_the_address_then_the_thresholds() {
    let mut config = Config::default();
    config.address = 0x21;
    let bus = MockBus::new();
    let log = bus.log.clone();
    let mut d = L9961::new(bus, config, 4).unwrap();
    d.apply_config().unwrap();
    let log = log.borrow().clone();
    assert_eq!(log.len(), 11);
    assert_eq!(log[0], Op::Write { address: 0x21, bytes: vec![0x03, 0x00, 0x21] });
    for op in &log[1..] {
        match op {
            Op::Write { address, .. } => assert_eq!(*address, 0x21),
            other => panic!("unexpected {:?}", other),
        }
    }
    assert_eq!(log[10], Op::Write { address: 0x21, bytes: vec![0x0F, 0x0F, 0xFF] });
}

#[test]
fn apply_config_stops_when_the_address_write_fails() {
    let bus = MockBus::new();
    bus.fail_after.set(Some(0));
    let (mut d, log, _fail) = device(bus);
    assert!(d.apply_config().is_err());
    assert!(log.borrow().is_empty());
}

#[test]
fn default_config_has_the_power_on_cycle_word() {
    let c = Config::default();
    assert_eq!(c.address, 0x49);
    assert_eq!(c.measurement_cycles.0, 0x0F4A);
    assert_eq!(c.measurement_cycles.get_t_meas_cycle().period_ms(), 300);
}
