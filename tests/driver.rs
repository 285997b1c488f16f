use ch32v1_i2c::i2c::{Error, I2c, Step, Wait};
use ch32v1_i2c::pins::{Alternate, OpenDrain, PushPull, PC1, PC2, PC5, PC6, PD0, PD1};
use ch32v1_i2c::regs::{
    Op, STAR1_ADDR, STAR1_AF, STAR1_ARLO, STAR1_BERR, STAR1_BTF, STAR1_OVR, STAR1_RXNE, STAR1_SB,
    STAR1_TXE, STAR2_BUSY, STAR2_MSL, STAR2_TRA,
};
use ch32v1_i2c::timing::{resolve, DutyCycle, I2cConfig, ResolvedTiming};
use ch32v1_i2c::transfer::Transfer;

#[derive(Debug, PartialEq)]
struct Periph(u32);

type DefaultBus = I2c<Periph, PC2<Alternate<OpenDrain>>, PC1<Alternate<OpenDrain>>>;

fn open_default(config: I2cConfig, pclk: u32) -> (DefaultBus, Vec<Op>) {
    I2c::i2c1(
        Periph(7),
        PC2 { mode: Alternate { driver: OpenDrain } },
        PC1 { mode: Alternate { driver: OpenDrain } },
        config,
        pclk,
    )
}

#[test]
fn presets_have_expected_speed_and_duty() {
    assert_eq!(I2cConfig::slow_mode(), I2cConfig { speed: 100_000, duty: DutyCycle::Perc33 });
    assert_eq!(I2cConfig::fast_mode(), I2cConfig { speed: 400_000, duty: DutyCycle::Perc33 });
    assert_eq!(
        I2cConfig::fast_mode_plus(),
        I2cConfig { speed: 1_000_000, duty: DutyCycle::Perc33 }
    );
    assert_eq!(I2cConfig::default(), I2cConfig::fast_mode());
}

#[test]
fn resolve_standard_mode_divider() {
    let t = resolve(16_000_000, I2cConfig::slow_mode());
    assert_eq!(t, ResolvedTiming { freq_mhz: 16, divider: 80, fast_mode: false, duty_bit: false });
}

#[test]
fn resolve_fast_mode_truncates() {
    let t = resolve(8_000_000, I2cConfig::fast_mode());
    assert_eq!(t, ResolvedTiming { freq_mhz: 8, divider: 6, fast_mode: true, duty_bit: false });
}

#[test]
fn resolve_fast_mode_plus_on_clamped_clock() {
    // 48 MHz is above the accepted range and divides as 36 MHz.
    let t = resolve(48_000_000, I2cConfig::fast_mode_plus());
    assert_eq!(t, ResolvedTiming { freq_mhz: 36, divider: 12, fast_mode: true, duty_bit: false });
}

#[test]
fn resolve_fast_mode_36_percent() {
    let config = I2cConfig { speed: 400_000, duty: DutyCycle::Perc36 };
    let t = resolve(36_000_000, config);
    assert_eq!(t, ResolvedTiming { freq_mhz: 36, divider: 3, fast_mode: true, duty_bit: true });
}

#[test]
fn resolve_duty_ignored_in_standard_mode() {
    let config = I2cConfig { speed: 100_000, duty: DutyCycle::Perc36 };
    let t = resolve(16_000_000, config);
    assert_eq!(t, ResolvedTiming { freq_mhz: 16, divider: 80, fast_mode: false, duty_bit: true });
}

#[test]
fn resolve_clamps_low_clock() {
    let t = resolve(1_000_000, I2cConfig::slow_mode());
    assert_eq!(t, resolve(2_000_000, I2cConfig::slow_mode()));
    assert_eq!(t, ResolvedTiming { freq_mhz: 2, divider: 10, fast_mode: false, duty_bit: false });
}

#[test]
fn resolve_clamps_high_clock() {
    let t = resolve(40_000_000, I2cConfig::slow_mode());
    assert_eq!(t, resolve(36_000_000, I2cConfig::slow_mode()));
    assert_eq!(t, ResolvedTiming { freq_mhz: 36, divider: 180, fast_mode: false, duty_bit: false });
}

#[test]
fn resolve_is_repeatable() {
    let config = I2cConfig { speed: 250_000, duty: DutyCycle::Perc36 };
    assert_eq!(resolve(24_000_000, config), resolve(24_000_000, config));
}

#[test]
fn check_error_each_kind() {
    let (bus, _) = open_default(I2cConfig::slow_mode(), 8_000_000);
    assert_eq!(bus.check_error(0), Ok(()));
    assert_eq!(bus.check_error(STAR1_TXE | STAR1_BTF), Ok(()));
    assert_eq!(bus.check_error(STAR1_BERR), Err(Error::BusError));
    assert_eq!(bus.check_error(STAR1_AF), Err(Error::AcknowledgeFailure));
    assert_eq!(bus.check_error(STAR1_ARLO), Err(Error::ArbitrationLost));
    assert_eq!(bus.check_error(STAR1_OVR), Err(Error::Overrun));
}

#[test]
fn check_error_priority() {
    let (bus, _) = open_default(I2cConfig::slow_mode(), 8_000_000);
    assert_eq!(bus.check_error(STAR1_BERR | STAR1_AF), Err(Error::BusError));
    assert_eq!(bus.check_error(STAR1_AF | STAR1_ARLO | STAR1_OVR), Err(Error::AcknowledgeFailure));
    assert_eq!(bus.check_error(STAR1_ARLO | STAR1_OVR), Err(Error::ArbitrationLost));
}

#[test]
fn wait_conditions() {
    let (bus, _) = open_default(I2cConfig::slow_mode(), 8_000_000);
    assert!(bus.wait_while(Wait::Idle, 0, STAR2_BUSY));
    assert!(!bus.wait_while(Wait::Idle, 0, 0));
    assert!(bus.wait_while(Wait::StartSent, STAR1_SB, STAR2_BUSY));
    assert!(!bus.wait_while(Wait::StartSent, STAR1_SB, STAR2_BUSY | STAR2_MSL));
    let master_tx = STAR2_BUSY | STAR2_MSL | STAR2_TRA;
    assert!(bus.wait_while(Wait::AddressSentWrite, STAR1_ADDR, master_tx));
    assert!(!bus.wait_while(Wait::AddressSentWrite, STAR1_ADDR | STAR1_TXE, master_tx));
    assert!(bus.wait_while(Wait::TxEmpty, STAR1_BTF, 0));
    assert!(!bus.wait_while(Wait::TxEmpty, STAR1_TXE, 0));
    assert!(bus.wait_while(Wait::TransferFinished, STAR1_TXE, master_tx));
    assert!(!bus.wait_while(Wait::TransferFinished, STAR1_TXE | STAR1_BTF, master_tx));
    assert!(bus.wait_while(Wait::AddressSentRead, STAR1_ADDR, STAR2_BUSY));
    assert!(!bus.wait_while(Wait::AddressSentRead, STAR1_ADDR, STAR2_BUSY | STAR2_MSL));
    assert!(bus.wait_while(Wait::RxNotEmpty, 0, STAR2_BUSY | STAR2_MSL));
    assert!(!bus.wait_while(Wait::RxNotEmpty, STAR1_RXNE, STAR2_BUSY | STAR2_MSL));
}

#[test]
fn open_programs_registers_in_order() {
    let (_, ops) = open_default(I2cConfig::slow_mode(), 16_000_000);
    assert_eq!(
        ops,
        vec![
            Op::EnableClock,
            Op::ResetPeripheral,
            Op::EnableAfio,
            Op::SetSoftwareReset,
            Op::ClearSoftwareReset,
            Op::Remap { high: false, low: false },
            Op::SetFreq(16),
            Op::SetClockControl { ccr: 80, fast: false, duty: false },
            Op::SetEnable,
            Op::SetAck,
        ]
    );
}

#[test]
fn remap_bits_follow_pin_pair() {
    let (_, ops) = I2c::i2c1(
        Periph(1),
        PD1 { mode: Alternate { driver: PushPull } },
        PD0 { mode: Alternate { driver: OpenDrain } },
        I2cConfig::fast_mode(),
        8_000_000,
    );
    assert_eq!(ops[5], Op::Remap { high: false, low: true });
    let (_, ops) = I2c::i2c1(
        Periph(1),
        PC5 { mode: Alternate { driver: OpenDrain } },
        PC6 { mode: Alternate { driver: OpenDrain } },
        I2cConfig::fast_mode(),
        8_000_000,
    );
    assert_eq!(ops[5], Op::Remap { high: true, low: false });
    assert_eq!(ops[7], Op::SetClockControl { ccr: 6, fast: true, duty: false });
}

#[test]
fn release_then_reopen_repeats_programming() {
    let config = I2cConfig::fast_mode();
    let (bus, first) = open_default(config, 24_000_000);
    let ((periph, scl, sda), down) = bus.release();
    assert_eq!(periph, Periph(7));
    assert_eq!(down, vec![Op::ClearEnable]);
    let (_, second) = I2c::i2c1(periph, scl, sda, config, 24_000_000);
    assert_eq!(first, second);
}

fn commands(steps: &[Step]) -> Vec<Op> {
    steps
        .iter()
        .filter_map(|s| match s {
            Step::Issue(op) => Some(*op),
            _ => None,
        })
        .collect()
}

#[test]
fn write_program_shape() {
    let (bus, _) = open_default(I2cConfig::slow_mode(), 8_000_000);
    let steps = bus.write(0x50, &[0x01, 0x02, 0x03]);
    assert_eq!(
        steps,
        vec![
            Step::WaitWhile(Wait::Idle),
            Step::Issue(Op::SetStart),
            Step::WaitWhile(Wait::StartSent),
            Step::Issue(Op::WriteData(0xa0)),
            Step::WaitWhile(Wait::AddressSentWrite),
            Step::WaitWhile(Wait::TxEmpty),
            Step::Issue(Op::WriteData(0x01)),
            Step::WaitWhile(Wait::TxEmpty),
            Step::Issue(Op::WriteData(0x02)),
            Step::WaitWhile(Wait::TxEmpty),
            Step::Issue(Op::WriteData(0x03)),
            Step::WaitWhile(Wait::TransferFinished),
            Step::Issue(Op::SetStop),
            Step::CheckError,
        ]
    );
    assert_eq!(
        commands(&steps),
        vec![
            Op::SetStart,
            Op::WriteData(0xa0),
            Op::WriteData(0x01),
            Op::WriteData(0x02),
            Op::WriteData(0x03),
            Op::SetStop,
        ]
    );
}

#[test]
fn write_program_empty_payload() {
    let (bus, _) = open_default(I2cConfig::slow_mode(), 8_000_000);
    let steps = bus.write(0x7f, &[]);
    assert_eq!(commands(&steps), vec![Op::SetStart, Op::WriteData(0xfe), Op::SetStop]);
    assert_eq!(steps.len(), 8);
}

#[test]
fn read_program_shape() {
    let (bus, _) = open_default(I2cConfig::slow_mode(), 8_000_000);
    let steps = bus.read(0x50, 2);
    assert_eq!(
        steps,
        vec![
            Step::WaitWhile(Wait::Idle),
            Step::Issue(Op::SetStart),
            Step::WaitWhile(Wait::StartSent),
            Step::Issue(Op::WriteData(0xa1)),
            Step::WaitWhile(Wait::AddressSentRead),
            Step::WaitWhile(Wait::RxNotEmpty),
            Step::Receive(0),
            Step::WaitWhile(Wait::RxNotEmpty),
            Step::Receive(1),
            Step::Issue(Op::SetStop),
            Step::CheckError,
        ]
    );
}

#[test]
fn write_read_program_is_concatenation() {
    let (bus, _) = open_default(I2cConfig::slow_mode(), 8_000_000);
    let mut expected = bus.write(0x3c, &[0x10]);
    expected.extend(bus.read(0x3c, 3));
    assert_eq!(bus.write_read(0x3c, &[0x10], 3), expected);
}

#[test]
fn transfer_runs_write_read_to_completion() {
    let (bus, _) = open_default(I2cConfig::slow_mode(), 8_000_000);
    let steps = bus.write_read(0x20, &[0xaa], 2);
    // Idle must be observed with BUSY clear; use one status that satisfies
    // every wait except Idle, and the idle wait separately.
    let mut t = Transfer::new(steps.clone());
    assert_eq!(t.on_status(&bus, 0, STAR2_BUSY), None);
    assert_eq!(t.current(), Some(Step::WaitWhile(Wait::Idle)));
    let (r, issued, buffer) = simulate_with_idle(&bus, steps, 2);
    assert_eq!(r, Ok(()));
    assert_eq!(
        issued,
        vec![
            Op::SetStart,
            Op::WriteData(0x40),
            Op::WriteData(0xaa),
            Op::SetStop,
            Op::SetStart,
            Op::WriteData(0x41),
            Op::SetStop,
        ]
    );
    assert_eq!(buffer, vec![0x40, 0x41]);
}

/// Runs a program, reporting an idle bus for idle waits and a fully
/// progressed master for the others; records the commands issued and fills
/// the buffer with 0x40, 0x41, ...
fn simulate_with_idle(bus: &DefaultBus, steps: Vec<Step>, len: usize) -> (Result<(), Error>, Vec<Op>, Vec<u8>) {
    let mut t = Transfer::new(steps);
    let mut issued = Vec::new();
    let mut buffer = vec![0u8; len];
    let mut next_rx: u8 = 0x40;
    let all1 = STAR1_SB | STAR1_ADDR | STAR1_BTF | STAR1_RXNE | STAR1_TXE;
    let all2 = STAR2_BUSY | STAR2_MSL | STAR2_TRA;
    for _ in 0..1000 {
        match t.current() {
            Some(Step::Issue(op)) => {
                issued.push(op);
                t.performed();
            }
            Some(Step::Receive(i)) => {
                buffer[i] = next_rx;
                next_rx += 1;
                t.performed();
            }
            Some(Step::WaitWhile(Wait::Idle)) => {
                assert_eq!(t.on_status(bus, 0, 0), None);
            }
            _ => {
                if let Some(r) = t.on_status(bus, all1, all2) {
                    return (r, issued, buffer);
                }
            }
        }
    }
    panic!("transfer did not finish");
}

#[test]
fn transfer_stops_after_failed_write() {
    let (bus, _) = open_default(I2cConfig::slow_mode(), 8_000_000);
    let steps = bus.write_read(0x20, &[0xaa], 2);
    let all1 = STAR1_SB | STAR1_ADDR | STAR1_BTF | STAR1_TXE | STAR1_AF;
    let all2 = STAR2_MSL | STAR2_TRA;
    // The bus is idle for the idle wait and a busy master afterwards, with
    // an acknowledge failure latched.
    let mut t = Transfer::new(steps);
    let mut issued = Vec::new();
    let mut result = None;
    for _ in 0..100 {
        match t.current() {
            Some(Step::Issue(op)) => {
                issued.push(op);
                t.performed();
            }
            Some(Step::WaitWhile(Wait::Idle)) => {
                assert_eq!(t.on_status(&bus, 0, 0), None);
            }
            _ => {
                if let Some(r) = t.on_status(&bus, all1, all2 | STAR2_BUSY) {
                    result = Some(r);
                    break;
                }
            }
        }
    }
    assert_eq!(result, Some(Err(Error::AcknowledgeFailure)));
    assert_eq!(issued, vec![Op::SetStart, Op::WriteData(0x40), Op::WriteData(0xaa), Op::SetStop]);
    assert_eq!(t.current(), None);
}

#[test]
fn transfer_waits_while_flags_missing() {
    let (bus, _) = open_default(I2cConfig::slow_mode(), 8_000_000);
    let mut t = Transfer::new(bus.read(0x11, 1));
    assert_eq!(t.on_status(&bus, 0, 0), None);
    assert_eq!(t.current(), Some(Step::Issue(Op::SetStart)));
    t.performed();
    // No start bit, no master mode: the wait holds however often it is polled.
    for _ in 0..50 {
        assert_eq!(t.on_status(&bus, 0, 0), None);
        assert_eq!(t.current(), Some(Step::WaitWhile(Wait::StartSent)));
    }
    // `performed` does not skip a wait.
    t.performed();
    assert_eq!(t.current(), Some(Step::WaitWhile(Wait::StartSent)));
}
