//! Charger commands and their execution lifecycle.
//!
//! A command chooses one of three firmware sketches for the charger
//! microcontroller, is flashed onto the device, and is then confirmed by
//! polling battery telemetry until the command's exit condition holds,
//! followed by a command-specific grace delay.
//!
//! The engine itself performs no I/O: the caller supplies the outcome of
//! the flashing tool and the telemetry it read, either one poll at a time
//! (through [`ArduCommand::begin`], [`ArduCommand::poll_exit`] and
//! [`ArduCommand::stop`]) or as a whole recorded trace (through
//! [`ArduCommand::execute`]).

use vstd::prelude::*;

use crate::battery_health::{BatteryReading, BatteryState, TelemetryError};
use crate::CHARGE_UPPER_LIMIT_MILLI;

verus! {

/// Seconds between two telemetry polls of the confirmation loop.
pub const POLL_INTERVAL_SECS: u64 = 1;

/// Grace delay after a confirmed connection, in seconds.
pub const CONNECT_GRACE_SECS: u64 = 19;

/// Grace delay after a confirmed disconnection, in seconds.
pub const DISCONNECT_GRACE_SECS: u64 = 13;

/// Half-width, in milli-percent, of the tolerance band around the upper
/// charge limit within which the idle command keeps polling.
pub const CHARGE_BAND_MILLI: u64 = 100;

/// The firmware sketch a command loads onto the microcontroller.
#[derive(Debug, PartialEq, Eq, Structural, Clone, Copy)]
pub enum ArduSketch {
    DoNothing,
    Disconnect,
    Connect,
}

/// Lifecycle state of one charger command.
#[derive(Debug, PartialEq, Eq, Structural, Clone, Copy)]
pub enum CommandState {
    ToExecute,
    Executing,
    Stopped,
}

/// A failure while executing a charger command.
#[derive(Debug, PartialEq, Eq)]
pub enum ExecutorError {
    /// The external flashing tool failed (non-zero exit or invocation
    /// failure). Fatal: a new command must be issued.
    FlashFailed,
    /// A telemetry read inside the confirmation loop failed; the error is
    /// propagated unchanged.
    Telemetry(TelemetryError),
    /// The supplied telemetry ran out before the exit condition held.
    TimedOut,
}

/// What a completed execution did: how many telemetry polls it took until
/// the exit condition held, and the grace delay that was applied.
#[derive(Debug, PartialEq, Eq, Structural, Clone, Copy)]
pub struct ExecutionReport {
    pub polls: usize,
    pub grace_secs: u64,
}

/// Grace delay, in seconds, owed after a command's exit condition holds.
pub open spec fn grace_of(sketch: ArduSketch) -> u64 {
    match sketch {
        ArduSketch::DoNothing => 0,
        ArduSketch::Disconnect => DISCONNECT_GRACE_SECS,
        ArduSketch::Connect => CONNECT_GRACE_SECS,
    }
}

/// Whether a percentage lies within the tolerance band around the upper
/// charge limit.
pub open spec fn within_charge_band(percentage_milli: u64) -> bool {
    CHARGE_UPPER_LIMIT_MILLI - CHARGE_BAND_MILLI <= percentage_milli
        <= CHARGE_UPPER_LIMIT_MILLI + CHARGE_BAND_MILLI
}

/// Exit condition of the confirmation loop, per command:
/// - `DoNothing` idles while the battery sits within the tolerance band
///   around the upper charge limit and exits once the level has left the
///   band;
/// - `Disconnect` exits once the battery reports `Discharging`;
/// - `Connect` exits once the battery reports `Charging`.
pub open spec fn exit_satisfied(sketch: ArduSketch, reading: BatteryReading) -> bool {
    match sketch {
        ArduSketch::DoNothing => !within_charge_band(reading.percentage_milli),
        ArduSketch::Disconnect => reading.state == BatteryState::Discharging,
        ArduSketch::Connect => reading.state == BatteryState::Charging,
    }
}

/// The transition relation of a command's lifecycle: `ToExecute` to
/// `Executing` when flashing begins, `Executing` to `Stopped` when the
/// exit condition has held and the grace delay has elapsed. `Stopped` has
/// no successor.
pub open spec fn valid_transition(pre: CommandState, post: CommandState) -> bool {
    ||| (pre == CommandState::ToExecute && post == CommandState::Executing)
    ||| (pre == CommandState::Executing && post == CommandState::Stopped)
}

/// No frame strictly before `i` satisfies the exit condition, and every
/// frame strictly before `i` is a successful read.
pub open spec fn no_exit_before(
    sketch: ArduSketch,
    telemetry: Seq<Result<BatteryReading, TelemetryError>>,
    i: int,
) -> bool {
    forall|j: int|
        0 <= j < i ==> telemetry[j] is Ok && !exit_satisfied(sketch, telemetry[j]->Ok_0)
}

/// Frame `i` is the first interesting frame, and it satisfies the exit
/// condition.
pub open spec fn exits_at(
    sketch: ArduSketch,
    telemetry: Seq<Result<BatteryReading, TelemetryError>>,
    i: int,
) -> bool {
    &&& 0 <= i < telemetry.len()
    &&& telemetry[i] is Ok
    &&& exit_satisfied(sketch, telemetry[i]->Ok_0)
    &&& no_exit_before(sketch, telemetry, i)
}

/// Frame `i` is the first interesting frame, and it is a failed read.
pub open spec fn fails_at(
    sketch: ArduSketch,
    telemetry: Seq<Result<BatteryReading, TelemetryError>>,
    i: int,
) -> bool {
    &&& 0 <= i < telemetry.len()
    &&& telemetry[i] is Err
    &&& no_exit_before(sketch, telemetry, i)
}

/// Every frame is a successful read and none satisfies the exit
/// condition.
pub open spec fn never_exits(
    sketch: ArduSketch,
    telemetry: Seq<Result<BatteryReading, TelemetryError>>,
) -> bool {
    no_exit_before(sketch, telemetry, telemetry.len() as int)
}

/// One charger command: the sketch to load and the lifecycle state.
#[derive(Debug, Clone, Copy)]
pub struct ArduCommand {
    pub command_type: ArduSketch,
    pub state: CommandState,
}

impl ArduSketch {
    /// Flashing-tool argument naming the firmware image of this sketch.
    pub fn firmware_flash_arg(&self) -> (r: &'static str)
        ensures
            r@ == match *self {
                ArduSketch::DoNothing => "flash:w:target/avr-atmega328p/release/do_nothing.elf"@,
                ArduSketch::Disconnect => "flash:w:target/avr-atmega328p/release/disconnect_charger.elf"@,
                ArduSketch::Connect => "flash:w:target/avr-atmega328p/release/connect_charger.elf"@,
            },
    {
        match self {
            ArduSketch::DoNothing => "flash:w:target/avr-atmega328p/release/do_nothing.elf",
            ArduSketch::Disconnect => "flash:w:target/avr-atmega328p/release/disconnect_charger.elf",
            ArduSketch::Connect => "flash:w:target/avr-atmega328p/release/connect_charger.elf",
        }
    }

    /// Name of the sketch directory in which the flashing tool must run.
    pub fn sketch_dir_name(&self) -> (r: &'static str)
        ensures
            r@ == match *self {
                ArduSketch::DoNothing => "do_nothing"@,
                ArduSketch::Disconnect => "disconnect_charger"@,
                ArduSketch::Connect => "connect_charger"@,
            },
    {
        match self {
            ArduSketch::DoNothing => "do_nothing",
            ArduSketch::Disconnect => "disconnect_charger",
            ArduSketch::Connect => "connect_charger",
        }
    }
}

impl ArduCommand {
    /// Marks the command as being executed; called when flashing begins.
    pub fn begin(&mut self)
        requires
            old(self).state == CommandState::ToExecute,
        ensures
            final(self).command_type == old(self).command_type,
            final(self).state == CommandState::Executing,
            valid_transition(old(self).state, final(self).state),
    {
        self.state = CommandState::Executing;
    }

    /// Marks the command as complete; called once the exit condition has
    /// held and the grace delay has elapsed.
    pub fn stop(&mut self)
        requires
            old(self).state == CommandState::Executing,
        ensures
            final(self).command_type == old(self).command_type,
            final(self).state == CommandState::Stopped,
            valid_transition(old(self).state, final(self).state),
    {
        self.state = CommandState::Stopped;
    }

    /// Whether one telemetry reading satisfies this command's exit
    /// condition.
    pub fn poll_exit(&self, reading: &BatteryReading) -> (r: bool)
        ensures
            r == exit_satisfied(self.command_type, *reading),
    {
        match self.command_type {
            ArduSketch::DoNothing => {
                let p = reading.percentage_milli;
                p < CHARGE_UPPER_LIMIT_MILLI - CHARGE_BAND_MILLI
                    || p > CHARGE_UPPER_LIMIT_MILLI + CHARGE_BAND_MILLI
            },
            ArduSketch::Disconnect => reading.state == BatteryState::Discharging,
            ArduSketch::Connect => reading.state == BatteryState::Charging,
        }
    }

    /// Grace delay, in seconds, owed by this command after its exit
    /// condition holds.
    pub fn grace_secs(&self) -> (r: u64)
        ensures
            r == grace_of(self.command_type),
    {
        match self.command_type {
            ArduSketch::DoNothing => 0,
            ArduSketch::Disconnect => DISCONNECT_GRACE_SECS,
            ArduSketch::Connect => CONNECT_GRACE_SECS,
        }
    }

    /// Runs one command against an injected flashing outcome and an
    /// injected telemetry trace.
    ///
    /// `flash_ok` is the outcome of the external flashing tool, obtained
    /// by the caller; `telemetry` holds the successive poll results, one
    /// per second of polling. The command first becomes `Executing`; a
    /// flashing failure is fatal before any poll. Otherwise the frames
    /// are consumed in order until the first one that either fails (the
    /// telemetry error is propagated) or satisfies the exit condition
    /// (the command becomes `Stopped` and the report gives the number of
    /// polls consumed and the grace delay owed). A trace that runs out
    /// first is a timeout. On every failure the command stays
    /// `Executing`, signalling that it needs attention.
    pub fn execute(&mut self, flash_ok: bool, telemetry: &Vec<Result<BatteryReading, TelemetryError>>) -> (r:
        Result<ExecutionReport, ExecutorError>)
        requires
            old(self).state == CommandState::ToExecute,
        ensures
            final(self).command_type == old(self).command_type,
            !flash_ok ==> final(self).state == CommandState::Executing && r == Err::<
                ExecutionReport,
                ExecutorError,
            >(ExecutorError::FlashFailed),
            flash_ok ==> {
                let sketch = old(self).command_type;
                &&& (r is Ok <==> exists|i: int| exits_at(sketch, telemetry@, i))
                &&& (forall|i: int|
                    exits_at(sketch, telemetry@, i) ==> r is Ok && r->Ok_0.polls == i + 1
                        && r->Ok_0.grace_secs == grace_of(sketch))
                &&& (forall|i: int|
                    fails_at(sketch, telemetry@, i) ==> r == Err::<
                        ExecutionReport,
                        ExecutorError,
                    >(ExecutorError::Telemetry(telemetry@[i]->Err_0)))
                &&& (never_exits(sketch, telemetry@) ==> r == Err::<
                    ExecutionReport,
                    ExecutorError,
                >(ExecutorError::TimedOut))
                &&& (r is Ok ==> final(self).state == CommandState::Stopped)
                &&& (!(r is Ok) ==> final(self).state == CommandState::Executing)
            },
    {
        let ghost sketch = self.command_type;
        self.begin();
        if !flash_ok {
            return Err(ExecutorError::FlashFailed);
        }
        let mut i: usize = 0;
        while i < telemetry.len()
            invariant
                flash_ok,
                self.state == CommandState::Executing,
                self.command_type == sketch,
                sketch == old(self).command_type,
                i <= telemetry.len(),
                no_exit_before(sketch, telemetry@, i as int),
            decreases telemetry.len() - i,
        {
            match &telemetry[i] {
                Ok(reading) => {
                    if self.poll_exit(reading) {
                        let grace = self.grace_secs();
                        self.stop();
                        proof {
                            assert(exits_at(sketch, telemetry@, i as int));
                            assert forall|i2: int| exits_at(sketch, telemetry@, i2) implies i2
                                == i as int by {
                                if i2 < i as int {
                                    assert(telemetry@[i2] is Ok && !exit_satisfied(
                                        sketch,
                                        telemetry@[i2]->Ok_0,
                                    ));
                                } else if i2 > i as int {
                                    assert(telemetry@[i as int] is Ok && !exit_satisfied(
                                        sketch,
                                        telemetry@[i as int]->Ok_0,
                                    ));
                                }
                            }
                            assert forall|i2: int| !fails_at(sketch, telemetry@, i2) by {
                                if 0 <= i2 < i as int {
                                    assert(telemetry@[i2] is Ok);
                                } else if i as int <= i2 < telemetry@.len() && fails_at(
                                    sketch,
                                    telemetry@,
                                    i2,
                                ) {
                                    assert(telemetry@[i as int] is Ok && !exit_satisfied(
                                        sketch,
                                        telemetry@[i as int]->Ok_0,
                                    ));
                                }
                            }
                        }
                        return Ok(ExecutionReport { polls: i + 1, grace_secs: grace });
                    }
                },
                Err(e) => {
                    return Err(ExecutorError::Telemetry(e.clone()));
                },
            }
            i = i + 1;
        }
        Err(ExecutorError::TimedOut)
    }
}

/// `Stopped` is terminal: no transition leaves it, so one execution
/// instance never revisits it.
pub proof fn lemma_stopped_is_terminal(post: CommandState)
    ensures
        !valid_transition(CommandState::Stopped, post),
{
}

/// Along any lifecycle that starts at `ToExecute` and follows the
/// transition relation, a command reaches `Stopped` only directly from
/// `Executing`, and only as its last state.
pub proof fn lemma_stopped_needs_executing(trace: Seq<CommandState>, k: int)
    requires
        trace.len() > 0,
        trace[0] == CommandState::ToExecute,
        forall|j: int|
            0 <= j < trace.len() - 1 ==> valid_transition(#[trigger] trace[j], trace[j + 1]),
        0 <= k < trace.len(),
        trace[k] == CommandState::Stopped,
    ensures
        0 < k,
        trace[k - 1] == CommandState::Executing,
        k == trace.len() - 1,
{
    assert(valid_transition(trace[k - 1], trace[k]));
    if k < trace.len() - 1 {
        assert(valid_transition(trace[k], trace[k + 1]));
        assert(false);
    }
}

} // verus!
