use bmi088::registers::{
    ACCEL_I2C_ADDR, ACC_CHIP_ID_VALUE, ACC_CONF, ACC_CONF_OSR4, ACC_ENABLE, ACC_PWR_CTRL,
    ACC_RANGE, ACC_SOFTRESET, GYRO_BANDWIDTH, GYRO_BANDWIDTH_SETTING, GYRO_CHIP_ID_VALUE,
    GYRO_I2C_ADDR, GYRO_NORMAL_MODE, GYRO_POWER_MODE, GYRO_RANGE, SETTLE_MILLIS, SOFT_RESET_CMD,
};
use bmi088::{
    AccelRange, Action, AsyncBmi088, AsyncBmiI2CError, Channel, Command, DriverState, GyroRange,
    ImuError, InitSequencer,
};
use i2cdev::linux::LinuxI2CError;

/// A bus stand-in: answers identity reads with the configured chip ids,
/// records every command, and can fail the command at a chosen index.
struct MockBus {
    accel_id: u8,
    gyro_id: u8,
    fail_at: Option<usize>,
    log: Vec<Command>,
}

impl MockBus {
    fn healthy() -> MockBus {
        MockBus { accel_id: ACC_CHIP_ID_VALUE, gyro_id: GYRO_CHIP_ID_VALUE, fail_at: None, log: Vec::new() }
    }

    fn perform(&mut self, cmd: Command) -> Result<u8, ImuError> {
        let index = self.log.len();
        self.log.push(cmd);
        if self.fail_at == Some(index) {
            return Err(ImuError::from(AsyncBmiI2CError::from(LinuxI2CError::Errno(5))));
        }
        match cmd {
            Command::Read { channel: Channel::Accel, .. } => Ok(self.accel_id),
            Command::Read { channel: Channel::Gyro, .. } => Ok(self.gyro_id),
            _ => Ok(0),
        }
    }

    fn writes_to(&self, channel: Channel) -> usize {
        self.log
            .iter()
            .filter(|c| matches!(c, Command::Write { channel: ch, .. } if *ch == channel))
            .count()
    }
}

/// Runs the whole power-up against the mock and assembles the handle.
fn power_up(
    bus: &mut MockBus,
    seq: InitSequencer,
) -> Result<AsyncBmi088<&'static str>, ImuError> {
    let mut seq = seq;
    let mut cmd = seq.start();
    loop {
        let reply = bus.perform(cmd);
        match seq.on_reply(reply) {
            Action::Issue(next) => cmd = next,
            Action::Ready => break,
            Action::Fail(e) => {
                assert_eq!(seq.state(), DriverState::Failed);
                assert!(AsyncBmi088::assemble(seq, "accel", "gyro").is_none());
                return Err(e);
            }
        }
    }
    Ok(AsyncBmi088::assemble(seq, "accel", "gyro").expect("a ready sequencer yields a handle"))
}

#[test]
fn end_to_end_success_with_default_ranges() {
    let mut bus = MockBus::healthy();
    let handle = power_up(&mut bus, InitSequencer::with_default_ranges()).expect("power-up succeeds");
    assert_eq!(handle.accel_range(), AccelRange::G3);
    assert_eq!(handle.gyro_range(), GyroRange::Dps2000);
    assert_eq!(*handle.accel_bus(), "accel");
    assert_eq!(*handle.gyro_bus(), "gyro");
    assert_eq!(bus.log.len(), 10);
    assert_eq!(
        bus.log[5],
        Command::Write { channel: Channel::Accel, register: ACC_RANGE, value: 0x00 }
    );
    assert_eq!(
        bus.log[8],
        Command::Write { channel: Channel::Gyro, register: GYRO_RANGE, value: 0x00 }
    );
}

#[test]
fn full_command_order() {
    let mut bus = MockBus::healthy();
    power_up(&mut bus, InitSequencer::new(AccelRange::G24, GyroRange::Dps125)).expect("power-up succeeds");
    let expected = vec![
        Command::Read { channel: Channel::Accel, register: 0x00 },
        Command::Write { channel: Channel::Accel, register: ACC_SOFTRESET, value: SOFT_RESET_CMD },
        Command::Settle { millis: SETTLE_MILLIS },
        Command::Write { channel: Channel::Accel, register: ACC_PWR_CTRL, value: ACC_ENABLE },
        Command::Write { channel: Channel::Accel, register: ACC_CONF, value: ACC_CONF_OSR4 },
        Command::Write { channel: Channel::Accel, register: ACC_RANGE, value: 0x03 },
        Command::Read { channel: Channel::Gyro, register: 0x00 },
        Command::Write { channel: Channel::Gyro, register: GYRO_POWER_MODE, value: GYRO_NORMAL_MODE },
        Command::Write { channel: Channel::Gyro, register: GYRO_RANGE, value: 0x04 },
        Command::Write { channel: Channel::Gyro, register: GYRO_BANDWIDTH, value: GYRO_BANDWIDTH_SETTING },
    ];
    assert_eq!(bus.log, expected);
}

#[test]
fn soft_reset_precedes_configuration_with_settle_pause() {
    let mut bus = MockBus::healthy();
    power_up(&mut bus, InitSequencer::with_default_ranges()).expect("power-up succeeds");
    let reset = bus
        .log
        .iter()
        .position(|c| matches!(c, Command::Write { register, .. } if *register == ACC_SOFTRESET))
        .expect("reset issued");
    for (i, c) in bus.log.iter().enumerate() {
        if matches!(c, Command::Write { .. }) && i != reset {
            assert!(i > reset + 1);
        }
    }
    assert!(matches!(bus.log[reset + 1], Command::Settle { millis } if millis >= 50));
}

#[test]
fn accel_identity_mismatch_fails_fast() {
    let mut bus = MockBus { accel_id: 0x42, ..MockBus::healthy() };
    let err = power_up(&mut bus, InitSequencer::with_default_ranges()).err().expect("must fail");
    assert!(matches!(err, ImuError::Protocol { channel: Channel::Accel, found: 0x42 }));
    assert_eq!(bus.writes_to(Channel::Accel), 0);
    assert_eq!(bus.log.len(), 1);
}

#[test]
fn gyro_identity_mismatch_fails_without_handle() {
    let mut bus = MockBus { gyro_id: 0x00, ..MockBus::healthy() };
    let err = power_up(&mut bus, InitSequencer::with_default_ranges()).err().expect("must fail");
    assert!(matches!(err, ImuError::Protocol { channel: Channel::Gyro, found: 0x00 }));
    assert_eq!(bus.writes_to(Channel::Gyro), 0);
    assert_eq!(bus.writes_to(Channel::Accel), 4);
}

#[test]
fn gyro_power_mode_failure_fails_without_handle() {
    let mut bus = MockBus { fail_at: Some(7), ..MockBus::healthy() };
    let err = power_up(&mut bus, InitSequencer::with_default_ranges()).err().expect("must fail");
    assert!(matches!(err, ImuError::Transport(AsyncBmiI2CError(LinuxI2CError::Errno(5)))));
    assert_eq!(bus.log.len(), 8);
}

#[test]
fn accel_range_write_failure_is_atomic() {
    let mut bus = MockBus { fail_at: Some(5), ..MockBus::healthy() };
    let err = power_up(&mut bus, InitSequencer::with_default_ranges()).err().expect("must fail");
    assert!(matches!(err, ImuError::Transport(_)));
    assert_eq!(bus.log.len(), 6);
    assert_eq!(bus.writes_to(Channel::Gyro), 0);
}

#[test]
fn join_error_is_passed_through() {
    let mut seq = InitSequencer::with_default_ranges();
    seq.start();
    assert!(matches!(seq.on_reply(Ok(ACC_CHIP_ID_VALUE)), Action::Issue(_)));
    match seq.on_reply(Err(ImuError::Join(String::from("worker panicked")))) {
        Action::Fail(ImuError::Join(msg)) => assert_eq!(msg, "worker panicked"),
        other => panic!("unexpected action {:?}", other),
    }
    assert_eq!(seq.state(), DriverState::Failed);
}

#[test]
fn unfinished_sequencer_yields_no_handle() {
    let seq = InitSequencer::with_default_ranges();
    assert_eq!(seq.state(), DriverState::Uninitialized);
    assert!(AsyncBmi088::assemble(seq, 1u8, 2u8).is_none());
    let mut seq = InitSequencer::new(AccelRange::G6, GyroRange::Dps500);
    assert_eq!(seq.start(), Command::Read { channel: Channel::Accel, register: 0x00 });
    assert_eq!(seq.state(), DriverState::Initializing);
    assert_eq!(seq.accel_range(), AccelRange::G6);
    assert_eq!(seq.gyro_range(), GyroRange::Dps500);
    assert!(AsyncBmi088::assemble(seq, 1u8, 2u8).is_none());
}

#[test]
fn register_values() {
    assert_eq!(AccelRange::G3.bits(), 0x00);
    assert_eq!(AccelRange::G12.bits(), 0x02);
    assert_eq!(GyroRange::Dps1000.bits(), 0x01);
    assert_eq!(GyroRange::Dps250.bits(), 0x03);
    assert_eq!(Channel::Accel.identity_value(), 0x1E);
    assert_eq!(Channel::Gyro.identity_value(), 0x0F);
    assert_eq!(Channel::Accel.bus_address(), ACCEL_I2C_ADDR);
    assert_eq!(Channel::Gyro.bus_address(), GYRO_I2C_ADDR);
}

#[test]
fn transport_error_conversions_keep_the_error() {
    let e = ImuError::from(AsyncBmiI2CError::from(LinuxI2CError::Errno(121)));
    assert!(matches!(e, ImuError::Transport(AsyncBmiI2CError(LinuxI2CError::Errno(121)))));
}
