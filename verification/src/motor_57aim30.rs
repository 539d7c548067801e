//! The 57AIM30 servo on a Modbus link: its holding registers, the encoding
//! of positions, and the procedures that take more than one request
//! (waiting for standstill, homing, scanning for the unit).
//!
//! Nothing here touches the link. A procedure hands out one `Op` at a time;
//! the host performs it and reports the `Outcome`.

use crate::master::{operation_timeout, ModbusRTUMaster};
use vstd::prelude::*;

verus! {

/// Register that switches Modbus control on, and that stores parameters.
pub const REG_CONTROL: u16 = 0x00;

/// Register of the acceleration; while the baud rate is changed, of its code.
pub const REG_ACCELERATION: u16 = 0x03;

/// Register written with `BAUD_UNLOCK` to take a new baud rate code.
pub const REG_BAUD_UNLOCK: u16 = 0x04;

/// Register of the speed ring ratio.
pub const REG_SPEED_RING_RATIO: u16 = 0x05;

/// Register of the position ring ratio.
pub const REG_POSITION_RING_RATIO: u16 = 0x07;

/// First of the two registers of the position: low word, then high word.
pub const REG_POSITION: u16 = 0x16;

/// Register of the maximum power.
pub const REG_MAX_POWER: u16 = 0x18;

/// Value of `REG_CONTROL` that switches Modbus control on.
pub const CONTROL_ENABLE: u16 = 1;

/// Value of `REG_CONTROL` that stores the parameters.
pub const CONTROL_STORE: u16 = 506;

/// Value of `REG_BAUD_UNLOCK` that makes the servo take the code.
pub const BAUD_UNLOCK: u16 = 129;

/// What a procedure asks its host to do next.
#[derive(Clone, Copy, Debug, PartialEq, Eq)]
pub enum Op {
    /// Write one holding register.
    Write { addr: u16, value: u16 },
    /// Write two holding registers in one request, `low` at `addr`.
    WritePair { addr: u16, low: u16, high: u16 },
    /// Read `count` holding registers.
    Read { addr: u16, count: u16 },
    /// Run the serial line at another baud rate.
    ChangeBaudrate(u32),
    /// Do nothing for so many milliseconds.
    Sleep { ms: u32 },
    /// Note the time.
    StartClock,
    /// Tell the milliseconds that have passed since the time was noted.
    ReadClock,
}

/// How the last `Op` went.
#[derive(Clone, Debug, PartialEq, Eq)]
pub enum Outcome {
    /// A write was acknowledged, the baud rate was changed, the sleep is
    /// over or the time was noted.
    Done,
    /// The registers that a read has brought.
    Registers(Vec<u16>),
    /// The answer to `ReadClock`.
    Elapsed(u64),
    /// The host could not do it.
    Failed,
}

/// Why a procedure gave up.
#[derive(Clone, Copy, Debug, PartialEq, Eq)]
pub enum MotorError {
    /// The host reported a failure on the link or of the clock.
    Bus,
    /// The host reported something that the procedure was not waiting for.
    OutOfTurn,
    /// The axis did not come to rest in time.
    Unstable,
    /// A travel limit does not fit the position register.
    Range,
    /// The end stops are so close that the upper travel limit would not
    /// lie above the lower one.
    NoTravel,
    /// No unit answered on any supported baud rate.
    NoDevice,
    /// The servo has no code for the baud rate.
    InvalidBaudRate,
}

/// What a procedure says after each report.
#[derive(Clone, Copy, Debug, PartialEq, Eq)]
pub enum Step<T> {
    Do(Op),
    Finished(T),
    Failed(MotorError),
}

/// Where a scan has found the servo.
#[derive(Clone, Copy, Debug, PartialEq, Eq)]
pub struct ModbusScanResult {
    pub baud_rate: u32,
    pub device_id: u8,
}

/// The low register of a position: its lower sixteen bits.
pub open spec fn low_word(position: i32) -> u16 {
    (position as int % 0x1_0000) as u16
}

/// The high register of a position: its upper sixteen bits, the sign among
/// them.
pub open spec fn high_word(position: i32) -> u16 {
    ((position as int / 0x1_0000) % 0x1_0000) as u16
}

/// The position that the two registers hold, as a signed 32-bit number.
pub open spec fn position_of(low: u16, high: u16) -> i32 {
    if high < 0x8000 {
        (high * 0x1_0000 + low) as i32
    } else {
        (high * 0x1_0000 + low - 0x1_0000_0000) as i32
    }
}

/// The position in what a read of the position registers has brought. A
/// register that the unit did not send counts as zero.
pub open spec fn position_from(words: Seq<u16>) -> i32 {
    position_of(
        if words.len() > 0 {
            words[0]
        } else {
            0
        },
        if words.len() > 1 {
            words[1]
        } else {
            0
        },
    )
}

/// The target that is written for `position`. The servo takes a target of
/// zero as no command, so zero is replaced by one.
pub open spec fn target_for(position: i32) -> i32 {
    if position == 0 {
        1
    } else {
        position
    }
}

/// The request that writes `position` to the position registers as it is.
pub open spec fn position_write(position: i32) -> Op {
    Op::WritePair { addr: REG_POSITION, low: low_word(position), high: high_word(position) }
}

/// The code that the servo has for a baud rate.
pub open spec fn baud_rate_code(baud_rate: u32) -> Option<u16> {
    if baud_rate == 9600 {
        Some(800u16)
    } else if baud_rate == 19200 {
        Some(801u16)
    } else if baud_rate == 38400 {
        Some(802u16)
    } else if baud_rate == 115200 {
        Some(803u16)
    } else {
        None
    }
}

/// The writes that make the servo take the baud rate of `code` at its next
/// power cycle, in their order.
pub open spec fn baud_program(code: u16) -> Seq<Op> {
    seq![
        Op::Write { addr: REG_CONTROL, value: CONTROL_ENABLE },
        Op::Write { addr: REG_ACCELERATION, value: code },
        Op::Write { addr: REG_BAUD_UNLOCK, value: BAUD_UNLOCK },
        Op::Write { addr: REG_CONTROL, value: CONTROL_STORE },
    ]
}

/// The two registers that hold `position`, low word first.
pub fn position_words(position: i32) -> (r: (u16, u16))
    ensures
        r == (low_word(position), high_word(position)),
{
    let unsigned: i64 = if position < 0 {
        position as i64 + 0x1_0000_0000
    } else {
        position as i64
    };
    ((unsigned % 0x1_0000) as u16, (unsigned / 0x1_0000) as u16)
}

/// The position that a read of the position registers has brought.
pub fn position_from_words(words: &[u16]) -> (r: i32)
    ensures
        r == position_from(words@),
{
    let low: u16 = if words.len() > 0 {
        words[0]
    } else {
        0
    };
    let high: u16 = if words.len() > 1 {
        words[1]
    } else {
        0
    };
    let unsigned: i64 = high as i64 * 0x1_0000 + low as i64;
    if high < 0x8000 {
        unsigned as i32
    } else {
        (unsigned - 0x1_0000_0000) as i32
    }
}

/// A position survives the way through the two registers.
pub proof fn law_position_round_trip(position: i32)
    ensures
        position_of(low_word(position), high_word(position)) == position,
{
}

/// Two registers hold one position: they come back from the position that
/// they decode to.
pub proof fn law_words_round_trip(low: u16, high: u16)
    ensures
        low_word(position_of(low, high)) == low,
        high_word(position_of(low, high)) == high,
{
}


/// Power limit while the axis runs against its end stops.
pub const HOMING_MAX_POWER: u16 = 60;

/// Acceleration while the axis runs against its end stops.
pub const HOMING_ACCELERATION: u16 = 10000;

/// Target that lies beyond every end stop, in counts.
pub const HOMING_TRAVEL: i32 = 1_000_000;

/// Distance that a travel limit keeps from its end stop, in counts.
pub const HOMING_MARGIN: i32 = 3000;

/// Time given to the axis to reach a target before it is watched, in ms.
pub const SETTLE_MS: u32 = 5000;

/// Time within which the axis must be found at rest, in ms.
pub const STABLE_TIMEOUT_MS: u32 = 5000;

/// Pause between two readings of the position, in ms.
pub const POLL_MS: u32 = 100;

/// Two readings that differ by less than this many counts show the axis at
/// rest.
pub const STABLE_TOLERANCE: i32 = 10;

/// The axis was at rest between two readings of its position.
pub open spec fn at_rest(earlier: i32, later: i32) -> bool {
    -STABLE_TOLERANCE < later - earlier < STABLE_TOLERANCE
}

/// Half of `a + b`, rounded towards zero.
pub open spec fn midpoint(a: i32, b: i32) -> i32 {
    if a + b >= 0 {
        ((a + b) / 2) as i32
    } else {
        (-((-(a + b)) / 2)) as i32
    }
}

/// The servo: its link and the travel limits that homing has found.
pub struct Modbus57AIM30Motor {
    client: ModbusRTUMaster,
    pos_min: i32,
    pos_max: i32,
}

impl Modbus57AIM30Motor {
    /// The link to the servo.
    pub closed spec fn link(&self) -> ModbusRTUMaster {
        self.client
    }

    /// The travel limits, lower first. Both are zero until a homing has
    /// finished, which sets them once, the lower below the upper.
    pub closed spec fn limits(&self) -> (i32, i32) {
        (self.pos_min, self.pos_max)
    }

    /// Homing has not set the travel limits.
    pub open spec fn unhomed(&self) -> bool {
        self.limits() == (0i32, 0i32)
    }

    /// A servo on the link `modbus_client` that has not been homed.
    pub fn new(modbus_client: ModbusRTUMaster) -> (r: Self)
        ensures
            r.link() == modbus_client,
            r.unhomed(),
    {
        Self { client: modbus_client, pos_min: 0, pos_max: 0 }
    }

    /// The link to the servo, by which the host makes its requests.
    pub fn client(&self) -> (r: &ModbusRTUMaster)
        ensures
            *r == self.link(),
    {
        &self.client
    }

    /// The lower travel limit; zero before homing.
    pub fn pos_min(&self) -> (r: i32)
        ensures
            r == self.limits().0,
    {
        self.pos_min
    }

    /// The upper travel limit; zero before homing.
    pub fn pos_max(&self) -> (r: i32)
        ensures
            r == self.limits().1,
    {
        self.pos_max
    }

    /// The servo needs nothing done between two set-points.
    pub fn cycle(&mut self)
        ensures
            *final(self) == *old(self),
    {
    }

    /// The request that switches Modbus control on.
    pub fn enable_modbus_communication(&self) -> (op: Op)
        ensures
            op == (Op::Write { addr: REG_CONTROL, value: CONTROL_ENABLE }),
    {
        Op::Write { addr: REG_CONTROL, value: CONTROL_ENABLE }
    }

    /// The request that reads the position. `position_from_words` turns
    /// what it brings into the position.
    pub fn read_position(&self) -> (op: Op)
        ensures
            op == (Op::Read { addr: REG_POSITION, count: 2 }),
    {
        Op::Read { addr: REG_POSITION, count: 2 }
    }

    /// The request that writes `position` to the position registers as it
    /// is.
    pub fn write_position_raw(&self, position: i32) -> (op: Op)
        ensures
            op == position_write(position),
    {
        let (low, high) = position_words(position);
        Op::WritePair { addr: REG_POSITION, low, high }
    }

    /// The request that sets the position counter to zero.
    pub fn reset_position(&self) -> (op: Op)
        ensures
            op == position_write(0),
    {
        self.write_position_raw(0)
    }

    /// The request that sends the axis to `position`.
    pub fn write_position(&self, position: i32) -> (op: Op)
        ensures
            op == position_write(target_for(position)),
    {
        if position == 0 {
            self.write_position_raw(1)
        } else {
            self.write_position_raw(position)
        }
    }

    /// The request that limits the power.
    pub fn set_max_power(&self, power: u16) -> (op: Op)
        ensures
            op == (Op::Write { addr: REG_MAX_POWER, value: power }),
    {
        Op::Write { addr: REG_MAX_POWER, value: power }
    }

    /// The request that sets the acceleration.
    pub fn set_acceleration(&self, acceleration: u16) -> (op: Op)
        ensures
            op == (Op::Write { addr: REG_ACCELERATION, value: acceleration }),
    {
        Op::Write { addr: REG_ACCELERATION, value: acceleration }
    }

    /// The request that sets the position ring ratio.
    pub fn set_position_ring_ratio(&self, ratio: u16) -> (op: Op)
        ensures
            op == (Op::Write { addr: REG_POSITION_RING_RATIO, value: ratio }),
    {
        Op::Write { addr: REG_POSITION_RING_RATIO, value: ratio }
    }

    /// The request that sets the speed ring ratio.
    pub fn set_speed_ring_ratio(&self, ratio: u16) -> (op: Op)
        ensures
            op == (Op::Write { addr: REG_SPEED_RING_RATIO, value: ratio }),
    {
        Op::Write { addr: REG_SPEED_RING_RATIO, value: ratio }
    }

    /// The four writes that make the servo run at `baud_rate` after its next
    /// power cycle, in the order in which they are to be made. A rate that
    /// the servo has no code for is refused.
    pub fn modbus_set_baud_rate(&self, baud_rate: u32) -> (r: Result<[Op; 4], MotorError>)
        ensures
            match baud_rate_code(baud_rate) {
                Some(code) => r matches Ok(ops) && ops@ == baud_program(code),
                None => r == Err::<[Op; 4], MotorError>(MotorError::InvalidBaudRate),
            },
    {
        let code: u16 = if baud_rate == 9600 {
            800
        } else if baud_rate == 19200 {
            801
        } else if baud_rate == 38400 {
            802
        } else if baud_rate == 115200 {
            803
        } else {
            return Err(MotorError::InvalidBaudRate);
        };
        let ops = [
            Op::Write { addr: REG_CONTROL, value: CONTROL_ENABLE },
            Op::Write { addr: REG_ACCELERATION, value: code },
            Op::Write { addr: REG_BAUD_UNLOCK, value: BAUD_UNLOCK },
            Op::Write { addr: REG_CONTROL, value: CONTROL_STORE },
        ];
        assert(ops@ =~= baud_program(code));
        Ok(ops)
    }
}


/// Where a wait for standstill stands: the stage names what the host was
/// last asked for, and holds the last reading of the position.
#[derive(Clone, Copy, Debug, PartialEq, Eq)]
pub enum WaitStage {
    /// The time is being noted.
    Arming,
    /// The first reading is on its way.
    First,
    /// The clock is being read.
    Checking(i32),
    /// The next reading is on its way.
    Polling(i32),
    /// The pause between two readings.
    Pausing(i32),
    Ended,
}

/// The wait until two readings in a row show the axis at rest, within a
/// time limit.
#[derive(Clone, Copy, Debug, PartialEq, Eq)]
pub struct StableWait {
    pub stage: WaitStage,
    pub timeout_ms: u32,
}

impl StableWait {
    pub open spec fn start(timeout_ms: u32) -> (Self, Op) {
        (StableWait { stage: WaitStage::Arming, timeout_ms }, Op::StartClock)
    }

    pub open spec fn end(self, step: Step<i32>) -> (Self, Step<i32>) {
        (StableWait { stage: WaitStage::Ended, ..self }, step)
    }

    /// The wait after `outcome`, and what it asks for or has found. The
    /// time limit is tested before each reading but the first; a reading
    /// ends the wait where it is within the tolerance of the one before.
    pub open spec fn next(self, outcome: Outcome) -> (Self, Step<i32>) {
        match (self.stage, outcome) {
            (WaitStage::Ended, _) => self.end(Step::Failed(MotorError::OutOfTurn)),
            (_, Outcome::Failed) => self.end(Step::Failed(MotorError::Bus)),
            (WaitStage::Arming, Outcome::Done) => (
                StableWait { stage: WaitStage::First, ..self },
                Step::Do(Op::Read { addr: REG_POSITION, count: 2 }),
            ),
            (WaitStage::First, Outcome::Registers(words)) => (
                StableWait { stage: WaitStage::Checking(position_from(words@)), ..self },
                Step::Do(Op::ReadClock),
            ),
            (WaitStage::Checking(last), Outcome::Elapsed(ms)) => if ms < self.timeout_ms {
                (
                    StableWait { stage: WaitStage::Polling(last), ..self },
                    Step::Do(Op::Read { addr: REG_POSITION, count: 2 }),
                )
            } else {
                self.end(Step::Failed(MotorError::Unstable))
            },
            (WaitStage::Polling(last), Outcome::Registers(words)) => if at_rest(
                last,
                position_from(words@),
            ) {
                self.end(Step::Finished(position_from(words@)))
            } else {
                (
                    StableWait { stage: WaitStage::Pausing(position_from(words@)), ..self },
                    Step::Do(Op::Sleep { ms: POLL_MS }),
                )
            },
            (WaitStage::Pausing(last), Outcome::Done) => (
                StableWait { stage: WaitStage::Checking(last), ..self },
                Step::Do(Op::ReadClock),
            ),
            _ => self.end(Step::Failed(MotorError::OutOfTurn)),
        }
    }

    fn finish(&mut self, step: Step<i32>) -> (r: Step<i32>)
        ensures
            (*final(self), r) == old(self).end(step),
    {
        self.stage = WaitStage::Ended;
        step
    }

    /// Takes the outcome of what was last asked for, and says what comes
    /// next: another request, the position at rest, or why there is none.
    pub fn step(&mut self, outcome: Outcome) -> (r: Step<i32>)
        ensures
            (*final(self), r) == old(self).next(outcome),
    {
        match self.stage {
            WaitStage::Ended => self.finish(Step::Failed(MotorError::OutOfTurn)),
            WaitStage::Arming => match outcome {
                Outcome::Failed => self.finish(Step::Failed(MotorError::Bus)),
                Outcome::Done => {
                    self.stage = WaitStage::First;
                    Step::Do(Op::Read { addr: REG_POSITION, count: 2 })
                },
                _ => self.finish(Step::Failed(MotorError::OutOfTurn)),
            },
            WaitStage::First => match outcome {
                Outcome::Failed => self.finish(Step::Failed(MotorError::Bus)),
                Outcome::Registers(words) => {
                    self.stage = WaitStage::Checking(position_from_words(words.as_slice()));
                    Step::Do(Op::ReadClock)
                },
                _ => self.finish(Step::Failed(MotorError::OutOfTurn)),
            },
            WaitStage::Checking(last) => match outcome {
                Outcome::Failed => self.finish(Step::Failed(MotorError::Bus)),
                Outcome::Elapsed(ms) => if ms < self.timeout_ms as u64 {
                    self.stage = WaitStage::Polling(last);
                    Step::Do(Op::Read { addr: REG_POSITION, count: 2 })
                } else {
                    self.finish(Step::Failed(MotorError::Unstable))
                },
                _ => self.finish(Step::Failed(MotorError::OutOfTurn)),
            },
            WaitStage::Polling(last) => match outcome {
                Outcome::Failed => self.finish(Step::Failed(MotorError::Bus)),
                Outcome::Registers(words) => {
                    let position = position_from_words(words.as_slice());
                    let moved: i64 = position as i64 - last as i64;
                    if -(STABLE_TOLERANCE as i64) < moved && moved < STABLE_TOLERANCE as i64 {
                        self.finish(Step::Finished(position))
                    } else {
                        self.stage = WaitStage::Pausing(position);
                        Step::Do(Op::Sleep { ms: POLL_MS })
                    }
                },
                _ => self.finish(Step::Failed(MotorError::OutOfTurn)),
            },
            WaitStage::Pausing(last) => match outcome {
                Outcome::Failed => self.finish(Step::Failed(MotorError::Bus)),
                Outcome::Done => {
                    self.stage = WaitStage::Checking(last);
                    Step::Do(Op::ReadClock)
                },
                _ => self.finish(Step::Failed(MotorError::OutOfTurn)),
            },
        }
    }
}

impl Modbus57AIM30Motor {
    /// Starts a wait for standstill that may take `timeout_ms`.
    pub fn wait_stable_position(&self, timeout_ms: u32) -> (r: (StableWait, Op))
        ensures
            r == StableWait::start(timeout_ms),
    {
        (StableWait { stage: WaitStage::Arming, timeout_ms }, Op::StartClock)
    }
}


/// The three runs of homing: against the lower end stop, against the upper
/// one, and to the middle between the limits.
#[derive(Clone, Copy, Debug, PartialEq, Eq)]
pub enum Leg {
    Low,
    High,
    Middle,
}

/// Where homing stands. Each stage names what the host was last asked for.
#[derive(Clone, Copy, Debug, PartialEq, Eq)]
pub enum HomingStage {
    /// The power limit is being written.
    Power,
    /// The acceleration is being written.
    Acceleration,
    /// The position counter is being set to zero.
    Reset,
    /// The target of a run is being written.
    Seek(Leg),
    /// The axis is given time to get there.
    Settle(Leg),
    /// The axis is watched until it rests.
    Wait(Leg),
    Ended,
}

/// Homing in progress. It keeps the travel limits that it finds; the motor
/// gets them when homing has finished, and keeps its own until then.
#[derive(Clone, Copy, Debug, PartialEq, Eq)]
pub struct Homing {
    pub stage: HomingStage,
    pub wait: StableWait,
    /// The travel limits found so far, lower first; zero where one has not
    /// been found yet.
    pub limits: (i32, i32),
}

impl Homing {
    /// Homing as it begins, and its first request.
    pub open spec fn start() -> (Self, Op) {
        (
            Homing {
                stage: HomingStage::Power,
                wait: StableWait::start(STABLE_TIMEOUT_MS).0,
                limits: (0, 0),
            },
            Op::Write { addr: REG_MAX_POWER, value: HOMING_MAX_POWER },
        )
    }

    /// Homing at its end, with its last answer.
    pub open spec fn end(self, step: Step<()>) -> (Self, Step<()>) {
        (Homing { stage: HomingStage::Ended, ..self }, step)
    }

    /// Homing on its way to `stage`, asking for `op`.
    pub open spec fn go(self, stage: HomingStage, op: Op) -> (Self, Step<()>) {
        (Homing { stage, ..self }, Step::Do(op))
    }

    /// What follows when the axis has come to rest at `position` on `leg`.
    /// The lower limit lies `HOMING_MARGIN` above the rest at the lower end
    /// stop, the upper limit as much below the rest at the upper one.
    /// Homing fails where a limit does not fit the position register, and
    /// where the upper limit would not lie above the lower one; it finishes
    /// only with limits that are in order.
    pub open spec fn rested(self, leg: Leg, position: i32) -> (Self, Step<()>) {
        match leg {
            Leg::Low => if position + HOMING_MARGIN <= i32::MAX {
                Homing { limits: ((position + HOMING_MARGIN) as i32, self.limits.1), ..self }.go(
                    HomingStage::Seek(Leg::High),
                    position_write(HOMING_TRAVEL),
                )
            } else {
                self.end(Step::Failed(MotorError::Range))
            },
            Leg::High => if self.limits.0 < position - HOMING_MARGIN {
                Homing { limits: (self.limits.0, (position - HOMING_MARGIN) as i32), ..self }.go(
                    HomingStage::Seek(Leg::Middle),
                    position_write(
                        target_for(midpoint(self.limits.0, (position - HOMING_MARGIN) as i32)),
                    ),
                )
            } else {
                self.end(Step::Failed(MotorError::NoTravel))
            },
            Leg::Middle => if self.limits.0 < self.limits.1 {
                self.end(Step::Finished(()))
            } else {
                self.end(Step::Failed(MotorError::NoTravel))
            },
        }
    }

    /// Homing after `outcome`, and what it asks for next.
    pub open spec fn next(self, outcome: Outcome) -> (Self, Step<()>) {
        match self.stage {
            HomingStage::Ended => self.end(Step::Failed(MotorError::OutOfTurn)),
            HomingStage::Wait(leg) => match self.wait.next(outcome) {
                (wait, Step::Do(op)) => (Homing { wait, ..self }, Step::Do(op)),
                (wait, Step::Failed(error)) => Homing { wait, ..self }.end(Step::Failed(error)),
                (wait, Step::Finished(position)) => Homing { wait, ..self }.rested(leg, position),
            },
            _ => match outcome {
                Outcome::Failed => self.end(Step::Failed(MotorError::Bus)),
                Outcome::Done => match self.stage {
                    HomingStage::Power => self.go(
                        HomingStage::Acceleration,
                        Op::Write { addr: REG_ACCELERATION, value: HOMING_ACCELERATION },
                    ),
                    HomingStage::Acceleration => self.go(HomingStage::Reset, position_write(0)),
                    HomingStage::Reset => self.go(
                        HomingStage::Seek(Leg::Low),
                        position_write((-HOMING_TRAVEL) as i32),
                    ),
                    HomingStage::Seek(leg) => self.go(
                        HomingStage::Settle(leg),
                        Op::Sleep { ms: SETTLE_MS },
                    ),
                    _ => (
                        Homing {
                            stage: HomingStage::Wait(self.stage->Settle_0),
                            wait: StableWait::start(STABLE_TIMEOUT_MS).0,
                            ..self
                        },
                        Step::Do(StableWait::start(STABLE_TIMEOUT_MS).1),
                    ),
                },
                _ => self.end(Step::Failed(MotorError::OutOfTurn)),
            },
        }
    }

    /// The travel limits of a motor that had the limits `motor`, after
    /// `outcome`: those that homing has found where this report finishes
    /// it, and `motor` in every other case. A homing that fails, at
    /// whatever point, leaves the motor as it was.
    pub open spec fn limits_after(self, motor: (i32, i32), outcome: Outcome) -> (i32, i32) {
        if self.next(outcome).1 is Finished {
            self.next(outcome).0.limits
        } else {
            motor
        }
    }

    fn finish(&mut self, step: Step<()>) -> (r: Step<()>)
        ensures
            (*final(self), r) == old(self).end(step),
    {
        self.stage = HomingStage::Ended;
        step
    }

    /// Takes the outcome of what was last asked for and says what comes
    /// next. The travel limits of `motor` are set when homing finishes, and
    /// not before; they are then in order, so that a motor that was homed
    /// is never taken for one that was not.
    pub fn step(&mut self, motor: &mut Modbus57AIM30Motor, outcome: Outcome) -> (r: Step<()>)
        ensures
            (*final(self), r) == old(self).next(outcome),
            final(motor).limits() == old(self).limits_after(old(motor).limits(), outcome),
            final(motor).link() == old(motor).link(),
            r is Finished ==> final(motor).limits().0 < final(motor).limits().1,
    {
        match self.stage {
            HomingStage::Ended => self.finish(Step::Failed(MotorError::OutOfTurn)),
            HomingStage::Wait(leg) => match self.wait.step(outcome) {
                Step::Do(op) => Step::Do(op),
                Step::Failed(error) => self.finish(Step::Failed(error)),
                Step::Finished(position) => match leg {
                    Leg::Low => if position <= i32::MAX - HOMING_MARGIN {
                        self.limits = (position + HOMING_MARGIN, self.limits.1);
                        self.stage = HomingStage::Seek(Leg::High);
                        Step::Do(motor.write_position_raw(HOMING_TRAVEL))
                    } else {
                        self.finish(Step::Failed(MotorError::Range))
                    },
                    Leg::High => if (self.limits.0 as i64) < position as i64
                        - HOMING_MARGIN as i64 {
                        self.limits = (self.limits.0, position - HOMING_MARGIN);
                        self.stage = HomingStage::Seek(Leg::Middle);
                        let sum: i64 = self.limits.0 as i64 + self.limits.1 as i64;
                        let middle: i64 = if sum >= 0 {
                            sum / 2
                        } else {
                            -((-sum) / 2)
                        };
                        Step::Do(motor.write_position(middle as i32))
                    } else {
                        self.finish(Step::Failed(MotorError::NoTravel))
                    },
                    Leg::Middle => if self.limits.0 < self.limits.1 {
                        motor.pos_min = self.limits.0;
                        motor.pos_max = self.limits.1;
                        self.finish(Step::Finished(()))
                    } else {
                        self.finish(Step::Failed(MotorError::NoTravel))
                    },
                },
            },
            _ => match outcome {
                Outcome::Failed => self.finish(Step::Failed(MotorError::Bus)),
                Outcome::Done => match self.stage {
                    HomingStage::Power => {
                        self.stage = HomingStage::Acceleration;
                        Step::Do(motor.set_acceleration(HOMING_ACCELERATION))
                    },
                    HomingStage::Acceleration => {
                        self.stage = HomingStage::Reset;
                        Step::Do(motor.reset_position())
                    },
                    HomingStage::Reset => {
                        self.stage = HomingStage::Seek(Leg::Low);
                        Step::Do(motor.write_position(-HOMING_TRAVEL))
                    },
                    HomingStage::Seek(leg) => {
                        self.stage = HomingStage::Settle(leg);
                        Step::Do(Op::Sleep { ms: SETTLE_MS })
                    },
                    HomingStage::Settle(leg) => {
                        let (wait, op) = motor.wait_stable_position(STABLE_TIMEOUT_MS);
                        self.wait = wait;
                        self.stage = HomingStage::Wait(leg);
                        Step::Do(op)
                    },
                    _ => self.finish(Step::Failed(MotorError::OutOfTurn)),
                },
                _ => self.finish(Step::Failed(MotorError::OutOfTurn)),
            },
        }
    }
}

impl Modbus57AIM30Motor {
    /// Starts homing: the search for the two end stops that sets the travel
    /// limits. The motor must not have been homed before. A homing that
    /// fails leaves it so, and homing may be started again.
    pub fn homing(&self) -> (r: (Homing, Op))
        requires
            self.unhomed(),
        ensures
            r == Homing::start(),
    {
        let (wait, _) = self.wait_stable_position(STABLE_TIMEOUT_MS);
        (
            Homing { stage: HomingStage::Power, wait, limits: (0, 0) },
            self.set_max_power(HOMING_MAX_POWER),
        )
    }
}

/// Number of baud rates that a scan tries.
pub const SCAN_RATES: usize = 4;

/// First unit that a scan tries.
pub const FIRST_UNIT: u8 = 1;

/// Last unit that a scan tries.
pub const LAST_UNIT: u8 = 247;

/// The baud rates of a scan in the order in which they are tried.
pub open spec fn scan_rate(index: int) -> u32 {
    if index == 0 {
        115200
    } else if index == 1 {
        9600
    } else if index == 2 {
        19200
    } else {
        38400
    }
}

/// The read and the write timeout of a link at `baud_rate`, in ticks.
pub open spec fn timeouts_at(baud_rate: u32, tick_rate_hz: u32) -> (u32, u32) {
    match operation_timeout(baud_rate, tick_rate_hz) {
        Ok(t) => (t, t),
        Err(_) => (0, 0),
    }
}

/// Where a scan stands: the stage names what the host was last asked for.
#[derive(Clone, Copy, Debug, PartialEq, Eq)]
pub enum ScanStage {
    /// The line is being set to the baud rate.
    Tuning,
    /// A unit is being asked for its first register.
    Probing,
    Ended,
}

/// A scan for the servo in progress: the baud rate by its index and the
/// unit that are being tried.
#[derive(Clone, Copy, Debug, PartialEq, Eq)]
pub struct Scan {
    pub stage: ScanStage,
    pub rate: usize,
    pub unit: u8,
}

impl Scan {
    pub open spec fn wf(self) -> bool {
        self.rate < SCAN_RATES && FIRST_UNIT <= self.unit <= LAST_UNIT
    }

    pub open spec fn start() -> (Self, Op) {
        (
            Scan { stage: ScanStage::Tuning, rate: 0, unit: FIRST_UNIT },
            Op::ChangeBaudrate(scan_rate(0)),
        )
    }

    pub open spec fn probe() -> Op {
        Op::Read { addr: REG_CONTROL, count: 1 }
    }

    pub open spec fn end(self, step: Step<ModbusScanResult>) -> (Self, Step<ModbusScanResult>) {
        (Scan { stage: ScanStage::Ended, ..self }, step)
    }

    /// The place of a try among all tries of a scan, counted from zero:
    /// every unit at the first baud rate, then every unit at the second, and
    /// so on.
    pub open spec fn rank(self) -> int {
        self.rate * 247 + (self.unit - FIRST_UNIT)
    }

    /// The scan after `outcome`, and what it asks for or has found. The
    /// first unit that answers ends the scan; a unit that does not is
    /// followed by the next one, the last unit by the first at the next
    /// baud rate, and the last try by failure.
    pub open spec fn next(self, outcome: Outcome) -> (Self, Step<ModbusScanResult>) {
        match (self.stage, outcome) {
            (ScanStage::Tuning, Outcome::Done) => (
                Scan { stage: ScanStage::Probing, unit: FIRST_UNIT, ..self },
                Step::Do(Self::probe()),
            ),
            (ScanStage::Tuning, Outcome::Failed) => self.end(Step::Failed(MotorError::Bus)),
            (ScanStage::Probing, Outcome::Registers(_)) => self.end(
                Step::Finished(
                    ModbusScanResult {
                        baud_rate: scan_rate(self.rate as int),
                        device_id: self.unit,
                    },
                ),
            ),
            (ScanStage::Probing, Outcome::Failed) => if self.unit < LAST_UNIT {
                (Scan { unit: (self.unit + 1) as u8, ..self }, Step::Do(Self::probe()))
            } else if self.rate + 1 < SCAN_RATES {
                (
                    Scan { stage: ScanStage::Tuning, rate: (self.rate + 1) as usize, ..self },
                    Step::Do(Op::ChangeBaudrate(scan_rate(self.rate + 1))),
                )
            } else {
                self.end(Step::Failed(MotorError::NoDevice))
            },
            _ => self.end(Step::Failed(MotorError::OutOfTurn)),
        }
    }

    fn rate_at(index: usize) -> (r: u32)
        ensures
            r == scan_rate(index as int),
    {
        if index == 0 {
            115200
        } else if index == 1 {
            9600
        } else if index == 2 {
            19200
        } else {
            38400
        }
    }

    fn finish(&mut self, step: Step<ModbusScanResult>) -> (r: Step<ModbusScanResult>)
        ensures
            (*final(self), r) == old(self).end(step),
    {
        self.stage = ScanStage::Ended;
        step
    }

    /// Takes the outcome of what was last asked for and says what comes
    /// next. The link of `motor` follows the scan: while a unit is tried the
    /// link is addressed to it and timed for the baud rate on trial, and so
    /// it stays when the unit answers.
    pub fn step(&mut self, motor: &mut Modbus57AIM30Motor, outcome: Outcome) -> (r: Step<
        ModbusScanResult,
    >)
        requires
            old(self).wf(),
        ensures
            (*final(self), r) == old(self).next(outcome),
            final(self).wf(),
            final(motor).limits() == old(motor).limits(),
            final(motor).link().driver() == old(motor).link().driver(),
            final(motor).link().tick_rate() == old(motor).link().tick_rate(),
            final(self).stage is Probing ==> final(motor).link().unit() == final(self).unit,
            final(self).stage is Probing ==> final(motor).link().timeouts() == if old(
                self,
            ).stage is Tuning {
                timeouts_at(scan_rate(final(self).rate as int), old(motor).link().tick_rate())
            } else {
                old(motor).link().timeouts()
            },
            !(final(self).stage is Probing) ==> final(motor).link() == old(motor).link(),
    {
        match self.stage {
            ScanStage::Tuning => match outcome {
                Outcome::Done => {
                    let _ = motor.client.set_baudrate(Self::rate_at(self.rate));
                    motor.client.set_device_id(FIRST_UNIT);
                    self.unit = FIRST_UNIT;
                    self.stage = ScanStage::Probing;
                    Step::Do(Op::Read { addr: REG_CONTROL, count: 1 })
                },
                Outcome::Failed => self.finish(Step::Failed(MotorError::Bus)),
                _ => self.finish(Step::Failed(MotorError::OutOfTurn)),
            },
            ScanStage::Probing => match outcome {
                Outcome::Registers(_) => {
                    let found = ModbusScanResult {
                        baud_rate: Self::rate_at(self.rate),
                        device_id: self.unit,
                    };
                    self.finish(Step::Finished(found))
                },
                Outcome::Failed => if self.unit < LAST_UNIT {
                    self.unit = self.unit + 1;
                    motor.client.set_device_id(self.unit);
                    Step::Do(Op::Read { addr: REG_CONTROL, count: 1 })
                } else if self.rate + 1 < SCAN_RATES {
                    self.rate = self.rate + 1;
                    self.stage = ScanStage::Tuning;
                    Step::Do(Op::ChangeBaudrate(Self::rate_at(self.rate)))
                } else {
                    self.finish(Step::Failed(MotorError::NoDevice))
                },
                _ => self.finish(Step::Failed(MotorError::OutOfTurn)),
            },
            ScanStage::Ended => self.finish(Step::Failed(MotorError::OutOfTurn)),
        }
    }
}

impl Modbus57AIM30Motor {
    /// Starts a scan for the servo over the supported baud rates and every
    /// unit address.
    pub fn modbus_scan(&self) -> (r: (Scan, Op))
        ensures
            r == Scan::start(),
            r.0.wf(),
    {
        (
            Scan { stage: ScanStage::Tuning, rate: 0, unit: FIRST_UNIT },
            Op::ChangeBaudrate(Scan::rate_at(0)),
        )
    }
}


/// What bringing the link up has found out.
#[derive(Clone, Copy, Debug, PartialEq, Eq)]
pub struct LinkReport {
    /// Where the servo was found, if it had to be looked for.
    pub found: Option<ModbusScanResult>,
    /// The servo was told to change its baud rate and needs a power cycle.
    pub retuned: bool,
}

/// Where bringing the link up stands.
#[derive(Clone, Copy, Debug, PartialEq, Eq)]
pub enum BringupStage {
    /// Modbus control is being switched on for the first time.
    Enabling,
    /// The servo did not answer and is being looked for.
    Scanning(Scan),
    /// The servo is being told its new baud rate: the write of this index
    /// of the program is on its way.
    Retuning(usize),
    /// Modbus control is being switched on for good.
    Confirming,
    Ended,
}

/// Bringing the link to the servo up: Modbus control is switched on; where
/// the servo does not answer it is looked for, and where it is found at
/// another baud rate than the one wanted it is told to change; then Modbus
/// control is switched on once more, and this time it must answer.
#[derive(Clone, Copy, Debug, PartialEq, Eq)]
pub struct Bringup {
    pub stage: BringupStage,
    /// The baud rate that the link is to run at.
    pub target: u32,
    pub report: LinkReport,
}

impl Bringup {
    pub open spec fn wf(self) -> bool {
        match self.stage {
            BringupStage::Scanning(scan) => scan.wf(),
            BringupStage::Retuning(index) => index < 4 && baud_rate_code(self.target) is Some,
            _ => true,
        }
    }

    pub open spec fn enable() -> Op {
        Op::Write { addr: REG_CONTROL, value: CONTROL_ENABLE }
    }

    pub open spec fn start(target: u32) -> (Self, Op) {
        (
            Bringup {
                stage: BringupStage::Enabling,
                target,
                report: LinkReport { found: None, retuned: false },
            },
            Self::enable(),
        )
    }

    pub open spec fn end(self, step: Step<LinkReport>) -> (Self, Step<LinkReport>) {
        (Bringup { stage: BringupStage::Ended, ..self }, step)
    }

    pub open spec fn confirm(self) -> (Self, Step<LinkReport>) {
        (Bringup { stage: BringupStage::Confirming, ..self }, Step::Do(Self::enable()))
    }

    /// What follows when the scan has found the servo.
    pub open spec fn located(self, found: ModbusScanResult) -> (Self, Step<LinkReport>) {
        let noted = Bringup { report: LinkReport { found: Some(found), ..self.report }, ..self };
        if found.baud_rate == self.target {
            noted.confirm()
        } else {
            match baud_rate_code(self.target) {
                Some(code) => (
                    Bringup {
                        stage: BringupStage::Retuning(0),
                        report: LinkReport { retuned: true, ..noted.report },
                        ..noted
                    },
                    Step::Do(baud_program(code)[0]),
                ),
                None => noted.end(Step::Failed(MotorError::InvalidBaudRate)),
            }
        }
    }

    pub open spec fn next(self, outcome: Outcome) -> (Self, Step<LinkReport>) {
        match self.stage {
            BringupStage::Enabling => match outcome {
                Outcome::Done => self.confirm(),
                Outcome::Failed => (
                    Bringup { stage: BringupStage::Scanning(Scan::start().0), ..self },
                    Step::Do(Scan::start().1),
                ),
                _ => self.end(Step::Failed(MotorError::OutOfTurn)),
            },
            BringupStage::Scanning(scan) => match scan.next(outcome) {
                (scan, Step::Do(op)) => (
                    Bringup { stage: BringupStage::Scanning(scan), ..self },
                    Step::Do(op),
                ),
                (_, Step::Failed(error)) => self.end(Step::Failed(error)),
                (_, Step::Finished(found)) => self.located(found),
            },
            BringupStage::Retuning(index) => match outcome {
                Outcome::Done => if index + 1 < 4 {
                    (
                        Bringup { stage: BringupStage::Retuning((index + 1) as usize), ..self },
                        Step::Do(baud_program(baud_rate_code(self.target)->0)[index + 1]),
                    )
                } else {
                    self.confirm()
                },
                Outcome::Failed => self.end(Step::Failed(MotorError::Bus)),
                _ => self.end(Step::Failed(MotorError::OutOfTurn)),
            },
            BringupStage::Confirming => match outcome {
                Outcome::Done => self.end(Step::Finished(self.report)),
                Outcome::Failed => self.end(Step::Failed(MotorError::Bus)),
                _ => self.end(Step::Failed(MotorError::OutOfTurn)),
            },
            BringupStage::Ended => self.end(Step::Failed(MotorError::OutOfTurn)),
        }
    }

    /// The servo is being looked for, and after `outcome` the scan tries a
    /// unit.
    pub open spec fn probes_after(self, outcome: Outcome) -> bool {
        self.stage matches BringupStage::Scanning(scan) && scan.next(outcome).0.stage is Probing
    }

    fn finish(&mut self, step: Step<LinkReport>) -> (r: Step<LinkReport>)
        ensures
            (*final(self), r) == old(self).end(step),
    {
        self.stage = BringupStage::Ended;
        step
    }

    fn finish_with_enable(&mut self, motor: &Modbus57AIM30Motor) -> (r: Step<LinkReport>)
        ensures
            (*final(self), r) == old(self).confirm(),
    {
        self.stage = BringupStage::Confirming;
        Step::Do(motor.enable_modbus_communication())
    }

    /// Starts bringing the link up for `target` baud.
    pub fn begin(motor: &Modbus57AIM30Motor, target: u32) -> (r: (Bringup, Op))
        ensures
            r == Self::start(target),
            r.0.wf(),
    {
        (
            Bringup {
                stage: BringupStage::Enabling,
                target,
                report: LinkReport { found: None, retuned: false },
            },
            motor.enable_modbus_communication(),
        )
    }

    /// Takes the outcome of what was last asked for and says what comes
    /// next. The link of `motor` changes only while the servo is looked
    /// for, and then as the scan says: while a unit is tried the link is
    /// addressed to it and timed for the baud rate on trial, and so it
    /// stays when the unit answers.
    pub fn step(&mut self, motor: &mut Modbus57AIM30Motor, outcome: Outcome) -> (r: Step<
        LinkReport,
    >)
        requires
            old(self).wf(),
        ensures
            (*final(self), r) == old(self).next(outcome),
            final(self).wf(),
            final(motor).limits() == old(motor).limits(),
            final(motor).link().driver() == old(motor).link().driver(),
            final(motor).link().tick_rate() == old(motor).link().tick_rate(),
            !old(self).probes_after(outcome) ==> final(motor).link() == old(motor).link(),
            old(self).probes_after(outcome) ==> final(motor).link().unit() == old(
                self,
            ).stage->Scanning_0.next(outcome).0.unit,
            old(self).probes_after(outcome) ==> final(motor).link().timeouts() == if old(
                self,
            ).stage->Scanning_0.stage is Tuning {
                timeouts_at(
                    scan_rate(old(self).stage->Scanning_0.next(outcome).0.rate as int),
                    old(motor).link().tick_rate(),
                )
            } else {
                old(motor).link().timeouts()
            },
    {
        match self.stage {
            BringupStage::Enabling => match outcome {
                Outcome::Done => self.finish_with_enable(motor),
                Outcome::Failed => {
                    let (scan, op) = motor.modbus_scan();
                    self.stage = BringupStage::Scanning(scan);
                    Step::Do(op)
                },
                _ => self.finish(Step::Failed(MotorError::OutOfTurn)),
            },
            BringupStage::Scanning(scan) => {
                let mut scan = scan;
                match scan.step(motor, outcome) {
                    Step::Do(op) => {
                        self.stage = BringupStage::Scanning(scan);
                        Step::Do(op)
                    },
                    Step::Failed(error) => self.finish(Step::Failed(error)),
                    Step::Finished(found) => {
                        self.report.found = Some(found);
                        if found.baud_rate == self.target {
                            self.finish_with_enable(motor)
                        } else {
                            match motor.modbus_set_baud_rate(self.target) {
                                Ok(program) => {
                                    self.report.retuned = true;
                                    self.stage = BringupStage::Retuning(0);
                                    Step::Do(program[0])
                                },
                                Err(error) => self.finish(Step::Failed(error)),
                            }
                        }
                    },
                }
            },
            BringupStage::Retuning(index) => match outcome {
                Outcome::Done => if index + 1 < 4 {
                    match motor.modbus_set_baud_rate(self.target) {
                        Ok(program) => {
                            self.stage = BringupStage::Retuning(index + 1);
                            Step::Do(program[index + 1])
                        },
                        Err(error) => self.finish(Step::Failed(error)),
                    }
                } else {
                    self.finish_with_enable(motor)
                },
                Outcome::Failed => self.finish(Step::Failed(MotorError::Bus)),
                _ => self.finish(Step::Failed(MotorError::OutOfTurn)),
            },
            BringupStage::Confirming => match outcome {
                Outcome::Done => {
                    let report = self.report;
                    self.finish(Step::Finished(report))
                },
                Outcome::Failed => self.finish(Step::Failed(MotorError::Bus)),
                _ => self.finish(Step::Failed(MotorError::OutOfTurn)),
            },
            BringupStage::Ended => self.finish(Step::Failed(MotorError::OutOfTurn)),
        }
    }
}

/// The link is up only when the servo has answered the last request to
/// switch Modbus control on; and the servo is told to change its baud rate
/// exactly when it was found at another rate than the one wanted.
pub proof fn law_bringup(bringup: Bringup, outcome: Outcome)
    requires
        bringup.wf(),
    ensures
        bringup.next(outcome).1 is Finished ==> bringup.stage is Confirming && outcome is Done
            && bringup.next(outcome).1->Finished_0 == bringup.report,
        bringup.next(outcome).0.stage is Retuning && !(bringup.stage is Retuning) ==> {
            &&& bringup.stage is Scanning
            &&& bringup.next(outcome).0.report.retuned
            &&& bringup.next(outcome).0.report.found is Some
            &&& bringup.next(outcome).0.report.found->0.baud_rate != bringup.target
        },
        bringup.stage is Scanning && bringup.next(outcome).0.stage is Confirming ==> {
            &&& bringup.next(outcome).0.report.found is Some
            &&& bringup.next(outcome).0.report.found->0.baud_rate == bringup.target
            &&& bringup.next(outcome).0.report.retuned == bringup.report.retuned
        },
{
}

impl HomingStage {
    /// The place of a stage in the course of homing.
    pub open spec fn rank(self) -> int {
        match self {
            HomingStage::Power => 0,
            HomingStage::Acceleration => 1,
            HomingStage::Reset => 2,
            HomingStage::Seek(leg) => 3 + 3 * leg.rank(),
            HomingStage::Settle(leg) => 4 + 3 * leg.rank(),
            HomingStage::Wait(leg) => 5 + 3 * leg.rank(),
            HomingStage::Ended => 12,
        }
    }
}

impl Leg {
    pub open spec fn rank(self) -> int {
        match self {
            Leg::Low => 0,
            Leg::High => 1,
            Leg::Middle => 2,
        }
    }
}

/// The middle between two travel limits lies between them.
pub proof fn law_midpoint_within(low: i32, high: i32)
    requires
        low <= high,
    ensures
        low <= midpoint(low, high) <= high,
{
}

/// The axis is found at rest only by two readings in a row that lie within
/// the tolerance, the second of them taken after the clock was read below
/// the time limit; the position reported is the second reading.
pub proof fn law_rest_found(wait: StableWait, outcome: Outcome)
    requires
        wait.next(outcome).1 is Finished,
    ensures
        wait.stage is Polling,
        outcome is Registers,
        wait.next(outcome).1 == Step::Finished::<i32>(position_from(outcome->Registers_0@)),
        at_rest(wait.stage->Polling_0, position_from(outcome->Registers_0@)),
{
}

/// A reading is asked for after the first only when the clock was read
/// below the time limit, and a clock read at or above it ends the wait as
/// unstable.
pub proof fn law_wait_is_bounded(wait: StableWait, ms: u64)
    requires
        wait.stage is Checking,
    ensures
        ms >= wait.timeout_ms ==> wait.next(Outcome::Elapsed(ms)).1 == Step::Failed::<i32>(
            MotorError::Unstable,
        ),
        ms < wait.timeout_ms ==> wait.next(Outcome::Elapsed(ms)).0.stage == WaitStage::Polling(
            wait.stage->Checking_0,
        ),
{
}

/// Homing never goes back: no report takes it to an earlier stage, and it
/// stays in a stage only while the axis is watched.
pub proof fn law_homing_order(homing: Homing, outcome: Outcome)
    ensures
        homing.stage.rank() <= homing.next(outcome).0.stage.rank(),
        homing.stage.rank() == homing.next(outcome).0.stage.rank() ==> homing.stage is Wait
            || homing.stage is Ended,
{
}

/// The travel limits of the motor are set once, and only by a homing that
/// succeeds: they change on no report but the one that finishes homing, so
/// a homing that fails leaves them as they were, both zero. On that report
/// they become the limits that homing has found, which are in order.
pub proof fn law_limits_set_once(homing: Homing, motor: (i32, i32), outcome: Outcome)
    ensures
        homing.limits_after(motor, outcome) != motor ==> homing.next(outcome).1 is Finished,
        homing.next(outcome).1 is Finished ==> homing.stage == HomingStage::Wait(Leg::Middle)
            && homing.limits_after(motor, outcome) == homing.limits,
        homing.next(outcome).1 is Failed ==> homing.limits_after(motor, outcome) == motor,
        homing.next(outcome).1 is Finished ==> homing.limits_after(motor, outcome).0
            < homing.limits_after(motor, outcome).1,
{
}

/// Each travel limit is found once: the lower limit when the watch at the
/// lower end stop ends, the upper limit when the watch at the upper end
/// stop ends, and by `law_homing_order` neither watch comes again. The
/// limits are the rest positions moved inwards by the margin.
pub proof fn law_limits_found_once(homing: Homing, outcome: Outcome)
    ensures
        ({
            let (after, _) = homing.next(outcome);
            &&& after.limits.0 != homing.limits.0 ==> homing.stage == HomingStage::Wait(Leg::Low)
                && after.stage == HomingStage::Seek(Leg::High)
            &&& after.limits.1 != homing.limits.1 ==> homing.stage == HomingStage::Wait(
                Leg::High,
            ) && after.stage == HomingStage::Seek(Leg::Middle)
            &&& homing.stage == HomingStage::Wait(Leg::Low) && after.stage == HomingStage::Seek(
                Leg::High,
            ) ==> after.limits == (
                (position_from(outcome->Registers_0@) + HOMING_MARGIN) as i32,
                homing.limits.1,
            )
            &&& homing.stage == HomingStage::Wait(Leg::High) && after.stage == HomingStage::Seek(
                Leg::Middle,
            ) ==> after.limits == (
                homing.limits.0,
                (position_from(outcome->Registers_0@) - HOMING_MARGIN) as i32,
            )
        }),
{
}

impl Homing {
    /// Homing and the travel limits of the motor after the reports
    /// `outcomes`, one after the other, with the answer to the last of
    /// them. `motor` are the limits that the motor had before.
    pub open spec fn run(self, motor: (i32, i32), outcomes: Seq<Outcome>) -> (
        Self,
        (i32, i32),
        Option<Step<()>>,
    )
        decreases outcomes.len(),
    {
        if outcomes.len() == 0 {
            (self, motor, None)
        } else {
            let before = self.run(motor, outcomes.drop_last());
            (
                before.0.next(outcomes.last()).0,
                before.0.limits_after(before.1, outcomes.last()),
                Some(before.0.next(outcomes.last()).1),
            )
        }
    }
}

/// As long as homing has not finished, the motor is as it was: whatever the
/// host reports, and however far homing got before it failed, the travel
/// limits of the motor change on no report before the one that is answered
/// with `Finished`.
pub proof fn law_unfinished_homing_keeps_limits(
    homing: Homing,
    motor: (i32, i32),
    outcomes: Seq<Outcome>,
)
    requires
        forall|k: int|
            0 < k <= outcomes.len() ==> !((#[trigger] homing.run(motor, outcomes.take(k))).2
                matches Some(Step::Finished(_))),
    ensures
        homing.run(motor, outcomes).1 == motor,
    decreases outcomes.len(),
{
    if outcomes.len() > 0 {
        let before = outcomes.drop_last();
        assert forall|k: int| 0 < k <= before.len() implies !((#[trigger] homing.run(
            motor,
            before.take(k),
        )).2 matches Some(Step::Finished(_))) by {
            assert(before.take(k) =~= outcomes.take(k));
        }
        law_unfinished_homing_keeps_limits(homing, motor, before);
        assert(outcomes.take(outcomes.len() as int) =~= outcomes);
    }
}

/// What the host reports while the axis is watched and stands still: the
/// time was noted, a reading, the clock at zero, and the same reading.
pub open spec fn still(reading: Outcome) -> Seq<Outcome> {
    seq![Outcome::Done, reading, Outcome::Elapsed(0), reading]
}

/// What the host reports in a homing in which every request succeeds at
/// once and the axis stands still at each stop: five requests done, the
/// watch at the lower end stop, two requests done, the watch at the upper
/// end stop, two requests done, and the watch in the middle.
pub open spec fn quiet(low: Outcome, high: Outcome, middle: Outcome) -> Seq<Outcome> {
    seq![Outcome::Done, Outcome::Done, Outcome::Done, Outcome::Done, Outcome::Done] + still(low)
        + seq![Outcome::Done, Outcome::Done] + still(high) + seq![Outcome::Done, Outcome::Done]
        + still(middle)
}

proof fn lemma_run_step(homing: Homing, motor: (i32, i32), outcomes: Seq<Outcome>, last: Outcome)
    ensures
        homing.run(motor, outcomes.push(last)) == ({
            let before = homing.run(motor, outcomes);
            (
                before.0.next(last).0,
                before.0.limits_after(before.1, last),
                Some(before.0.next(last).1),
            )
        }),
{
    assert(outcomes.push(last).drop_last() =~= outcomes);
}

proof fn lemma_run_still(homing: Homing, motor: (i32, i32), before: Seq<Outcome>, reading: Outcome)
    requires
        reading is Registers,
        homing.run(motor, before).0.stage is Wait,
        homing.run(motor, before).0.wait == StableWait::start(STABLE_TIMEOUT_MS).0,
    ensures
        homing.run(motor, before + still(reading)) == ({
            let at = homing.run(motor, before);
            let wait = StableWait { stage: WaitStage::Ended, timeout_ms: STABLE_TIMEOUT_MS };
            let after = Homing { wait, ..at.0 }.rested(
                at.0.stage->Wait_0,
                position_from(reading->Registers_0@),
            );
            (
                after.0,
                if after.1 is Finished {
                    after.0.limits
                } else {
                    at.1
                },
                Some(after.1),
            )
        }),
{
    let s1 = before.push(Outcome::Done);
    let s2 = s1.push(reading);
    let s3 = s2.push(Outcome::Elapsed(0));
    let s4 = s3.push(reading);
    lemma_run_step(homing, motor, before, Outcome::Done);
    lemma_run_step(homing, motor, s1, reading);
    lemma_run_step(homing, motor, s2, Outcome::Elapsed(0));
    lemma_run_step(homing, motor, s3, reading);
    assert(s4 =~= before + still(reading));
}

/// The travel limits that homing finds. When every request succeeds, the
/// axis stands still at each stop and the stops are more than twice the
/// margin apart, homing finishes, and the limits of the motor are the rest
/// at the lower end stop plus the margin and the rest at the upper end
/// stop minus the margin, the lower below the upper.
pub proof fn law_quiet_homing(low: Outcome, high: Outcome, middle: Outcome)
    requires
        low is Registers,
        high is Registers,
        middle is Registers,
        position_from(low->Registers_0@) + HOMING_MARGIN <= i32::MAX,
        position_from(high->Registers_0@) - position_from(low->Registers_0@) > 2 * HOMING_MARGIN,
    ensures
        Homing::start().0.run((0, 0), quiet(low, high, middle)).2 == Some(Step::Finished(())),
        Homing::start().0.run((0, 0), quiet(low, high, middle)).1 == (
            (position_from(low->Registers_0@) + HOMING_MARGIN) as i32,
            (position_from(high->Registers_0@) - HOMING_MARGIN) as i32,
        ),
        Homing::start().0.run((0, 0), quiet(low, high, middle)).1.0 < Homing::start().0.run(
            (0, 0),
            quiet(low, high, middle),
        ).1.1,
{
    let h = Homing::start().0;
    let l = (0i32, 0i32);
    let e = Seq::<Outcome>::empty();
    let a1 = e.push(Outcome::Done);
    let a2 = a1.push(Outcome::Done);
    let a3 = a2.push(Outcome::Done);
    let a4 = a3.push(Outcome::Done);
    let a5 = a4.push(Outcome::Done);
    lemma_run_step(h, l, e, Outcome::Done);
    lemma_run_step(h, l, a1, Outcome::Done);
    lemma_run_step(h, l, a2, Outcome::Done);
    lemma_run_step(h, l, a3, Outcome::Done);
    lemma_run_step(h, l, a4, Outcome::Done);
    assert(h.run(l, a5).0.stage == HomingStage::Wait(Leg::Low));
    lemma_run_still(h, l, a5, low);
    let b0 = a5 + still(low);
    let b1 = b0.push(Outcome::Done);
    let b2 = b1.push(Outcome::Done);
    lemma_run_step(h, l, b0, Outcome::Done);
    lemma_run_step(h, l, b1, Outcome::Done);
    assert(h.run(l, b2).0.stage == HomingStage::Wait(Leg::High));
    lemma_run_still(h, l, b2, high);
    let c0 = b2 + still(high);
    let c1 = c0.push(Outcome::Done);
    let c2 = c1.push(Outcome::Done);
    lemma_run_step(h, l, c0, Outcome::Done);
    lemma_run_step(h, l, c1, Outcome::Done);
    assert(h.run(l, c2).0.stage == HomingStage::Wait(Leg::Middle));
    lemma_run_still(h, l, c2, middle);
    assert(c2 + still(middle) =~= quiet(low, high, middle));
}

/// An axis whose end stops are no more than twice the margin apart cannot
/// be homed: when the watch at the upper end stop ends, homing fails, and
/// the motor keeps the limits that it had.
pub proof fn law_no_travel(homing: Homing, motor: (i32, i32), outcome: Outcome)
    requires
        homing.stage == HomingStage::Wait(Leg::High),
        homing.wait.next(outcome).1 matches Step::Finished(position) && position - HOMING_MARGIN
            <= homing.limits.0,
    ensures
        homing.next(outcome).1 == Step::Failed::<()>(MotorError::NoTravel),
        homing.limits_after(motor, outcome) == motor,
{
}

/// A scan tries every unit at every baud rate in order and stops at the
/// end: after a unit that did not answer comes the try of the next rank,
/// if need be after the line was set to the next baud rate, and after the
/// last try the scan fails for want of a device.
pub proof fn law_scan_order(scan: Scan)
    requires
        scan.wf(),
        scan.stage is Probing,
    ensures
        ({
            let (after, step) = scan.next(Outcome::Failed);
            let last = 4 * 247 - 1;
            &&& after.wf()
            &&& scan.rank() == last ==> step == Step::Failed::<ModbusScanResult>(
                MotorError::NoDevice,
            )
            &&& scan.rank() < last ==> {
                let tried = if after.stage is Tuning {
                    after.next(Outcome::Done).0
                } else {
                    after
                };
                tried.stage is Probing && tried.rank() == scan.rank() + 1
            }
        }),
{
}

/// The first unit that answers is the result of the scan, with the baud
/// rate at which it answered.
pub proof fn law_scan_result(scan: Scan, outcome: Outcome)
    requires
        scan.wf(),
        scan.next(outcome).1 is Finished,
    ensures
        scan.stage is Probing,
        outcome is Registers,
        scan.next(outcome).1->Finished_0 == (ModbusScanResult {
            baud_rate: scan_rate(scan.rate as int),
            device_id: scan.unit,
        }),
{
}

} // verus!
