//! The power-up sequence of both channels as a state machine.
//!
//! The sequencer decides; it performs no bus traffic itself. Its owner runs
//! each `Command` it issues (a register read, a register write or a pause)
//! and hands back the outcome, and the sequencer answers with the next
//! command, with `Ready` once every step of both channels has succeeded, or
//! with the first error, after which it issues nothing more.
use crate::error::ImuError;
use crate::registers::{
    expected_identity, AccelRange, Channel, GyroRange, ACC_CHIP_ID, ACC_CONF, ACC_CONF_OSR4,
    ACC_ENABLE, ACC_PWR_CTRL, ACC_RANGE, ACC_SOFTRESET, GYRO_BANDWIDTH, GYRO_BANDWIDTH_SETTING,
    GYRO_CHIP_ID, GYRO_NORMAL_MODE, GYRO_POWER_MODE, GYRO_RANGE, SETTLE_MILLIS, SOFT_RESET_CMD,
};
use vstd::prelude::*;

verus! {

/// One bus transaction, or a pause, that the sequencer asks for.
#[derive(Clone, Copy, Debug, PartialEq, Eq, Structural)]
pub enum Command {
    /// Read one register of a channel; the outcome is the byte read.
    Read { channel: Channel, register: u8 },
    /// Write one register of a channel.
    Write { channel: Channel, register: u8, value: u8 },
    /// Suspend for at least `millis` milliseconds.
    Settle { millis: u64 },
}

/// What the sequencer asks of its owner after an outcome.
#[derive(Debug)]
pub enum Action {
    /// Run this command next and report its outcome.
    Issue(Command),
    /// Every step of both channels succeeded.
    Ready,
    /// The sequence stopped at this error; nothing more is issued.
    Fail(ImuError),
}

/// Where the power-up of the driver stands.
#[derive(Clone, Copy, Debug, PartialEq, Eq, Structural)]
pub enum DriverState {
    Uninitialized,
    Initializing,
    Ready,
    Failed,
}

/// The steps of the accelerometer channel, in order: identity check, soft
/// reset, settle pause, power, oversampling and range.
pub open spec fn accel_script(range: AccelRange) -> Seq<Command> {
    seq![
        Command::Read { channel: Channel::Accel, register: ACC_CHIP_ID },
        Command::Write { channel: Channel::Accel, register: ACC_SOFTRESET, value: SOFT_RESET_CMD },
        Command::Settle { millis: SETTLE_MILLIS },
        Command::Write { channel: Channel::Accel, register: ACC_PWR_CTRL, value: ACC_ENABLE },
        Command::Write { channel: Channel::Accel, register: ACC_CONF, value: ACC_CONF_OSR4 },
        Command::Write { channel: Channel::Accel, register: ACC_RANGE, value: range.spec_bits() },
    ]
}

/// The steps of the gyroscope channel, in order: identity check, power
/// mode, range and bandwidth.
pub open spec fn gyro_script(range: GyroRange) -> Seq<Command> {
    seq![
        Command::Read { channel: Channel::Gyro, register: GYRO_CHIP_ID },
        Command::Write { channel: Channel::Gyro, register: GYRO_POWER_MODE, value: GYRO_NORMAL_MODE },
        Command::Write { channel: Channel::Gyro, register: GYRO_RANGE, value: range.spec_bits() },
        Command::Write {
            channel: Channel::Gyro,
            register: GYRO_BANDWIDTH,
            value: GYRO_BANDWIDTH_SETTING,
        },
    ]
}

/// The whole power-up sequence: the accelerometer first, then the gyroscope.
pub open spec fn init_script(accel: AccelRange, gyro: GyroRange) -> Seq<Command> {
    accel_script(accel) + gyro_script(gyro)
}

/// Number of commands in the power-up sequence.
pub const SCRIPT_LEN: usize = 10;

/// Whether a command writes a register of the given channel.
pub open spec fn writes_to(cmd: Command, channel: Channel) -> bool {
    match cmd {
        Command::Write { channel: c, .. } => c == channel,
        _ => false,
    }
}

/// The abstract state of a sequencer.
pub ghost struct SequencerView {
    pub accel_range: AccelRange,
    pub gyro_range: GyroRange,
    /// Index in the script of the command in flight (or last issued).
    pub pos: nat,
    pub state: DriverState,
}

impl SequencerView {
    pub open spec fn script(self) -> Seq<Command> {
        init_script(self.accel_range, self.gyro_range)
    }

    pub open spec fn wf(self) -> bool {
        &&& self.pos < SCRIPT_LEN
        &&& self.state == DriverState::Uninitialized ==> self.pos == 0
        &&& self.state == DriverState::Ready ==> self.pos == SCRIPT_LEN - 1
    }

    /// The command in flight.
    pub open spec fn command(self) -> Command {
        self.script()[self.pos as int]
    }

    /// The commands issued so far, in order.
    pub open spec fn issued(self) -> Seq<Command> {
        if self.state == DriverState::Uninitialized {
            Seq::empty()
        } else {
            self.script().take(self.pos + 1 as int)
        }
    }

    /// A handle can be built from this state only.
    pub open spec fn is_ready(self) -> bool {
        self.state == DriverState::Ready
    }

    pub open spec fn with_state(self, state: DriverState) -> SequencerView {
        SequencerView { state, ..self }
    }
}

/// One step of the sequencer: the state after the command in flight ended
/// with `reply`, and what is asked next. A failed transaction, or an
/// identity read that returned a byte other than the channel's chip id,
/// stops the sequence; otherwise the next command is issued, or the driver
/// is ready after the last one.
pub open spec fn step(v: SequencerView, reply: Result<u8, ImuError>) -> (SequencerView, Action) {
    match reply {
        Err(e) => (v.with_state(DriverState::Failed), Action::Fail(e)),
        Ok(b) => match v.command() {
            Command::Read { channel, .. } if b != expected_identity(channel) => (
                v.with_state(DriverState::Failed),
                Action::Fail(ImuError::Protocol { channel, found: b }),
            ),
            _ => if v.pos + 1 < SCRIPT_LEN {
                let next = SequencerView { pos: v.pos + 1, ..v };
                (next, Action::Issue(next.command()))
            } else {
                (v.with_state(DriverState::Ready), Action::Ready)
            },
        },
    }
}

/// Drives the power-up sequence of both channels.
pub struct InitSequencer {
    accel_range: AccelRange,
    gyro_range: GyroRange,
    pos: usize,
    state: DriverState,
}

impl View for InitSequencer {
    type V = SequencerView;

    closed spec fn view(&self) -> SequencerView {
        SequencerView {
            accel_range: self.accel_range,
            gyro_range: self.gyro_range,
            pos: self.pos as nat,
            state: self.state,
        }
    }
}

/// The sequence has `SCRIPT_LEN` commands: the accelerometer's six, then
/// the gyroscope's four.
proof fn lemma_script_layout(accel: AccelRange, gyro: GyroRange)
    ensures
        init_script(accel, gyro).len() == SCRIPT_LEN,
        forall|i: int| 0 <= i < 6 ==> #[trigger] init_script(accel, gyro)[i] == accel_script(accel)[i],
        forall|i: int| 6 <= i < 10 ==> #[trigger] init_script(accel, gyro)[i] == gyro_script(gyro)[i - 6],
{
}

/// The command at index `pos` of the power-up sequence.
fn command_at(accel: AccelRange, gyro: GyroRange, pos: usize) -> (c: Command)
    requires
        pos < SCRIPT_LEN,
    ensures
        c == init_script(accel, gyro)[pos as int],
{
    proof {
        lemma_script_layout(accel, gyro);
    }
    match pos {
        0 => Command::Read { channel: Channel::Accel, register: ACC_CHIP_ID },
        1 => Command::Write { channel: Channel::Accel, register: ACC_SOFTRESET, value: SOFT_RESET_CMD },
        2 => Command::Settle { millis: SETTLE_MILLIS },
        3 => Command::Write { channel: Channel::Accel, register: ACC_PWR_CTRL, value: ACC_ENABLE },
        4 => Command::Write { channel: Channel::Accel, register: ACC_CONF, value: ACC_CONF_OSR4 },
        5 => Command::Write { channel: Channel::Accel, register: ACC_RANGE, value: accel.bits() },
        6 => Command::Read { channel: Channel::Gyro, register: GYRO_CHIP_ID },
        7 => Command::Write {
            channel: Channel::Gyro,
            register: GYRO_POWER_MODE,
            value: GYRO_NORMAL_MODE,
        },
        8 => Command::Write { channel: Channel::Gyro, register: GYRO_RANGE, value: gyro.bits() },
        _ => Command::Write {
            channel: Channel::Gyro,
            register: GYRO_BANDWIDTH,
            value: GYRO_BANDWIDTH_SETTING,
        },
    }
}

impl InitSequencer {
    /// A sequencer that has issued nothing yet and will configure the given
    /// ranges.
    pub fn new(accel_range: AccelRange, gyro_range: GyroRange) -> (s: InitSequencer)
        ensures
            s@.wf(),
            s@.state == DriverState::Uninitialized,
            s@.accel_range == accel_range,
            s@.gyro_range == gyro_range,
    {
        InitSequencer { accel_range, gyro_range, pos: 0, state: DriverState::Uninitialized }
    }

    /// A sequencer for the default ranges: the 3 g accelerometer range and
    /// the 2000 degrees per second gyroscope range.
    pub fn with_default_ranges() -> (s: InitSequencer)
        ensures
            s@.wf(),
            s@.state == DriverState::Uninitialized,
            s@.accel_range == AccelRange::G3,
            s@.gyro_range == GyroRange::Dps2000,
    {
        InitSequencer::new(AccelRange::G3, GyroRange::Dps2000)
    }

    pub fn state(&self) -> (r: DriverState)
        ensures
            r == self@.state,
    {
        self.state
    }

    pub fn accel_range(&self) -> (r: AccelRange)
        ensures
            r == self@.accel_range,
    {
        self.accel_range
    }

    pub fn gyro_range(&self) -> (r: GyroRange)
        ensures
            r == self@.gyro_range,
    {
        self.gyro_range
    }

    /// Begins the sequence and returns its first command, the accelerometer
    /// identity read.
    pub fn start(&mut self) -> (c: Command)
        requires
            old(self)@.wf(),
            old(self)@.state == DriverState::Uninitialized,
        ensures
            final(self)@ == old(self)@.with_state(DriverState::Initializing),
            final(self)@.wf(),
            c == final(self)@.command(),
            c == (Command::Read { channel: Channel::Accel, register: ACC_CHIP_ID }),
            final(self)@.issued() == seq![c],
    {
        self.state = DriverState::Initializing;
        let c = command_at(self.accel_range, self.gyro_range, self.pos);
        assert(self@.issued() =~= seq![c]);
        c
    }

    /// Takes the outcome of the command in flight and answers with what to
    /// do next, as `step` describes. Errors come back unchanged.
    pub fn on_reply(&mut self, reply: Result<u8, ImuError>) -> (a: Action)
        requires
            old(self)@.wf(),
            old(self)@.state == DriverState::Initializing,
        ensures
            (final(self)@, a) == step(old(self)@, reply),
            final(self)@.wf(),
    {
        let cmd = command_at(self.accel_range, self.gyro_range, self.pos);
        match reply {
            Err(e) => {
                self.state = DriverState::Failed;
                Action::Fail(e)
            },
            Ok(b) => {
                if let Command::Read { channel, .. } = cmd {
                    if b != channel.identity_value() {
                        self.state = DriverState::Failed;
                        return Action::Fail(ImuError::Protocol { channel, found: b });
                    }
                }
                if self.pos + 1 < SCRIPT_LEN {
                    self.pos = self.pos + 1;
                    Action::Issue(command_at(self.accel_range, self.gyro_range, self.pos))
                } else {
                    self.state = DriverState::Ready;
                    Action::Ready
                }
            },
        }
    }
}

} // verus!

verus! {

/// A channel's identity check fails fast: when the identity read of a
/// channel returns anything but that channel's chip id, the sequence stops
/// with a protocol error naming the channel and the byte found, and no
/// command issued up to then writes a register of that channel.
pub proof fn identity_mismatch_fails_fast(v: SequencerView, found: u8)
    requires
        v.wf(),
        v.state == DriverState::Initializing,
        v.command() is Read,
        found != expected_identity(v.command()->Read_channel),
    ensures
        ({
            let channel = v.command()->Read_channel;
            let (next, a) = step(v, Ok(found));
            &&& next.state == DriverState::Failed
            &&& !next.is_ready()
            &&& a == Action::Fail(ImuError::Protocol { channel, found })
            &&& next.issued() == v.issued()
            &&& forall|j: int| 0 <= j < next.issued().len() ==> !writes_to(#[trigger] next.issued()[j], channel)
        }),
{
    lemma_script_layout(v.accel_range, v.gyro_range);
}

/// The soft reset of the accelerometer is written before every other write
/// of the sequence, and the command right after it is a pause of at least
/// `SETTLE_MILLIS` milliseconds.
pub proof fn reset_precedes_configuration(accel: AccelRange, gyro: GyroRange)
    ensures
        ({
            let s = init_script(accel, gyro);
            &&& s[1] == Command::Write {
                channel: Channel::Accel,
                register: ACC_SOFTRESET,
                value: SOFT_RESET_CMD,
            }
            &&& s[2] is Settle
            &&& s[2]->Settle_millis >= SETTLE_MILLIS
            &&& forall|j: int| 0 <= j < s.len() && #[trigger] s[j] is Write && j != 1 ==> 2 < j
        }),
{
    lemma_script_layout(accel, gyro);
}

/// Power-up is fail-stop: a failed transaction at any step ends the
/// sequence with that same error, in a state from which no handle can be
/// built and from which nothing more is issued.
pub proof fn failure_is_terminal(v: SequencerView, e: ImuError)
    requires
        v.wf(),
        v.state == DriverState::Initializing,
    ensures
        step(v, Err(e)).0.state == DriverState::Failed,
        !step(v, Err(e)).0.is_ready(),
        step(v, Err(e)).1 == Action::Fail(e),
        step(v, Err(e)).0.issued() == v.issued(),
{
}

/// The driver is ready only once the last command of the sequence has
/// succeeded, so every step of both channels has been issued.
pub proof fn ready_only_after_whole_sequence(v: SequencerView, reply: Result<u8, ImuError>)
    requires
        v.wf(),
        v.state == DriverState::Initializing,
        step(v, reply).0.is_ready(),
    ensures
        reply is Ok,
        v.pos == SCRIPT_LEN - 1,
        step(v, reply).0.issued() == v.script(),
        step(v, reply).1 == Action::Ready,
{
    assert(v.script().len() == SCRIPT_LEN);
    assert(v.script().take(SCRIPT_LEN as int) =~= v.script());
}

} // verus!
