use crate::control_logic::{decide, ControlError, ControlMode, RUN_SECONDS};
use crate::fan::FanCommand;
use crate::sensor::AirCleanliness;
use crate::protocol::{ExternalCommand, ExternalFanCommand, FanSpeed};
use vstd::prelude::*;

verus! {

/// Clock ticks per second: instants are counted in ticks of the fan unit's
/// clock, which runs at one megahertz (embassy-time's default rate; the
/// fan unit's tasks check at build time that the clock runs at it).
pub const TICKS_PER_SECOND: u64 = 1_000_000;

/// Whether the fan runs, and until which instant.
#[derive(Clone, Copy, Debug, PartialEq, Eq, Structural)]
pub enum FanRunning {
    Stopped,
    Running { until: u64 },
}

/// The fan unit's state: whether it runs, and the speed it runs at when it
/// does.
#[derive(Clone, Copy, Debug, PartialEq, Eq, Structural)]
pub struct State {
    pub fan: FanRunning,
    pub speed: FanSpeed,
}

/// What the run logic waits for: a command (or the news that commands were
/// lost), or the instant at which a running fan is due to stop.
#[derive(Clone, Copy, Debug, PartialEq, Eq, Structural)]
pub enum RunEvent {
    Command(ExternalCommand),
    Lagged { lost: u64 },
    FanOffTimeout,
}

/// The instant `now` plus `seconds`, in ticks.
pub open spec fn deadline(now: u64, seconds: u64) -> int {
    now + seconds * TICKS_PER_SECOND
}

/// `cmd` received at `now` names a deadline that the clock can count to.
pub open spec fn fan_command_fits(cmd: ExternalFanCommand, now: u64) -> bool {
    match cmd {
        ExternalFanCommand::Stop => true,
        ExternalFanCommand::RunFor { seconds } => deadline(now, seconds) <= u64::MAX,
    }
}

/// `event` at `now` names a deadline that the clock can count to.
pub open spec fn event_fits(event: RunEvent, now: u64) -> bool {
    match event {
        RunEvent::Command(cmd) => match cmd.fan {
            Some(fan) => fan_command_fits(fan, now),
            None => true,
        },
        _ => true,
    }
}

/// Whether the fan runs after `cmd` at `now`.
pub open spec fn running_for(cmd: ExternalFanCommand, now: u64) -> FanRunning {
    match cmd {
        ExternalFanCommand::Stop => FanRunning::Stopped,
        ExternalFanCommand::RunFor { seconds } => FanRunning::Running {
            until: deadline(now, seconds) as u64,
        },
    }
}

/// The state after `event` at `now`, or `None` when the event leaves nothing
/// to decide. A command replaces the parts it names; a timeout stops the fan
/// and keeps the speed.
pub open spec fn next_state(state: State, event: RunEvent, now: u64) -> Option<State> {
    match event {
        RunEvent::Lagged { .. } => None,
        RunEvent::Command(cmd) => Some(
            State {
                fan: match cmd.fan {
                    Some(fan) => running_for(fan, now),
                    None => state.fan,
                },
                speed: match cmd.speed {
                    Some(speed) => speed,
                    None => state.speed,
                },
            },
        ),
        RunEvent::FanOffTimeout => Some(State { fan: FanRunning::Stopped, speed: state.speed }),
    }
}

/// What the fan driver is to do in `state`.
pub open spec fn fan_command_of(state: State) -> FanCommand {
    match state.fan {
        FanRunning::Stopped => FanCommand::Stop,
        FanRunning::Running { .. } => FanCommand::Run(state.speed),
    }
}

impl FanRunning {
    /// Whether the fan runs after `cmd` received at `now`.
    pub fn from_command(cmd: ExternalFanCommand, now: u64) -> (running: Self)
        requires
            fan_command_fits(cmd, now),
        ensures
            running == running_for(cmd, now),
    {
        match cmd {
            ExternalFanCommand::Stop => FanRunning::Stopped,
            ExternalFanCommand::RunFor { seconds } => FanRunning::Running {
                until: now + seconds * TICKS_PER_SECOND,
            },
        }
    }
}

impl State {
    /// The state after power-on: stopped, at low speed.
    pub fn initial() -> (state: Self)
        ensures
            state == (State { fan: FanRunning::Stopped, speed: FanSpeed::Low }),
    {
        State { fan: FanRunning::Stopped, speed: FanSpeed::Low }
    }

    /// What the fan driver is to do in this state.
    pub fn get_fan_command(&self) -> (cmd: FanCommand)
        ensures
            cmd == fan_command_of(*self),
    {
        match self.fan {
            FanRunning::Stopped => FanCommand::Stop,
            FanRunning::Running { .. } => FanCommand::Run(self.speed),
        }
    }

    /// The instant at which the fan is due to stop, if it runs.
    pub fn fan_off_time(&self) -> (t: Option<u64>)
        ensures
            t == (match self.fan {
                FanRunning::Stopped => None,
                FanRunning::Running { until } => Some(until),
            }),
    {
        match self.fan {
            FanRunning::Stopped => None,
            FanRunning::Running { until } => Some(until),
        }
    }

    /// Takes `event` at `now`: the state moves to `next_state`, and when it
    /// changes, the fan command of the new state is returned for the fan
    /// driver; otherwise nothing is.
    pub fn step(&mut self, event: RunEvent, now: u64) -> (out: Option<FanCommand>)
        requires
            event_fits(event, now),
        ensures
            match next_state(*old(self), event, now) {
                Some(s) => if s != *old(self) {
                    *final(self) == s && out == Some(fan_command_of(s))
                } else {
                    *final(self) == *old(self) && out is None
                },
                None => *final(self) == *old(self) && out is None,
            },
            event matches RunEvent::Command(cmd) ==> (cmd.fan matches Some(
                ExternalFanCommand::RunFor { seconds },
            ) ==> final(self).fan == (FanRunning::Running {
                until: (now + seconds * TICKS_PER_SECOND) as u64,
            })),
            event matches RunEvent::Command(cmd) ==> (cmd.speed matches Some(speed)
                ==> final(self).speed == speed),
    {
        let new_state = match event {
            RunEvent::Lagged { .. } => None,
            RunEvent::Command(cmd) => Some(
                State {
                    fan: match cmd.fan {
                        Some(fan) => FanRunning::from_command(fan, now),
                        None => self.fan,
                    },
                    speed: match cmd.speed {
                        Some(speed) => speed,
                        None => self.speed,
                    },
                },
            ),
            RunEvent::FanOffTimeout => Some(State { fan: FanRunning::Stopped, speed: self.speed }),
        };
        if let Some(new_state) = new_state {
            if new_state != *self {
                *self = new_state;
                return Some(self.get_fan_command());
            }
        }
        None
    }
}

/// The command sent once after power-on: run for five minutes at the current
/// speed.
pub fn initial_fan_trigger_command() -> (cmd: ExternalCommand)
    ensures
        cmd == (ExternalCommand {
            fan: Some(ExternalFanCommand::RunFor { seconds: 300 }),
            speed: None,
        }),
{
    ExternalCommand { fan: Some(ExternalFanCommand::RunFor { seconds: 300 }), speed: None }
}

/// A command that names neither the fan nor the speed changes nothing, so
/// nothing is sent to the fan driver.
pub proof fn empty_command_changes_nothing(state: State, now: u64)
    ensures
        next_state(state, RunEvent::Command(ExternalCommand { fan: None, speed: None }), now)
            == Some(state),
{
}

/// When the fan's time is up, it stops and keeps its speed, whatever it did
/// before.
pub proof fn timeout_stops_the_fan(state: State, now: u64)
    ensures
        next_state(state, RunEvent::FanOffTimeout, now) == Some(
            State { fan: FanRunning::Stopped, speed: state.speed },
        ),
        fan_command_of(next_state(state, RunEvent::FanOffTimeout, now).unwrap())
            == FanCommand::Stop,
{
}

/// A command with `Stop` stops the fan, whatever else it says; a command to
/// run with a speed runs the fan at that speed.
pub proof fn commands_take_effect(state: State, cmd: ExternalCommand, now: u64)
    requires
        event_fits(RunEvent::Command(cmd), now),
    ensures
        cmd.fan == Some(ExternalFanCommand::Stop) ==> fan_command_of(
            next_state(state, RunEvent::Command(cmd), now).unwrap(),
        ) == FanCommand::Stop,
        (cmd.fan matches Some(ExternalFanCommand::RunFor { .. }) && cmd.speed matches Some(speed))
            ==> fan_command_of(next_state(state, RunEvent::Command(cmd), now).unwrap())
            == FanCommand::Run(cmd.speed.unwrap()),
{
}

/// The same event twice at the same instant: the second leaves the state as
/// the first left it, so it sends nothing.
pub proof fn repeated_events_are_idempotent(state: State, event: RunEvent, now: u64)
    ensures
        next_state(state, event, now) matches Some(s) ==> next_state(s, event, now) == Some(s),
{
}

/// What the controller decides is what the fan unit does: a decided command
/// received at any instant early enough for its deadline makes the fan stop
/// when the command says stop, and otherwise run at the command's speed, or
/// at the unit's current speed when the command names none.
pub proof fn controller_decisions_reach_the_fan(
    mode: ControlMode,
    cleanliness: Result<AirCleanliness, ControlError>,
    presence: Result<bool, ControlError>,
    state: State,
    now: u64,
)
    requires
        now + RUN_SECONDS * TICKS_PER_SECOND <= u64::MAX,
    ensures
        decide(mode, cleanliness, presence) matches Ok(cmd) ==> {
            &&& event_fits(RunEvent::Command(cmd), now)
            &&& fan_command_of(next_state(state, RunEvent::Command(cmd), now).unwrap()) == if cmd.fan
                == Some(ExternalFanCommand::Stop) {
                FanCommand::Stop
            } else {
                FanCommand::Run(
                    match cmd.speed {
                        Some(speed) => speed,
                        None => state.speed,
                    },
                )
            }
        },
{
}

/// A command takes effect whatever the unit did before: `RunFor { seconds }`
/// received at `now` runs the fan until `now` plus those seconds, `Stop` stops
/// it, a command without a fan part leaves the fan as it was, and a speed in
/// the command becomes the speed (otherwise the speed is kept).
pub proof fn commands_set_the_fan(state: State, cmd: ExternalCommand, now: u64)
    requires
        event_fits(RunEvent::Command(cmd), now),
    ensures
        next_state(state, RunEvent::Command(cmd), now) is Some,
        cmd.fan matches Some(ExternalFanCommand::RunFor { seconds }) ==> next_state(
            state,
            RunEvent::Command(cmd),
            now,
        ).unwrap().fan == (FanRunning::Running {
            until: (now + seconds * TICKS_PER_SECOND) as u64,
        }),
        cmd.fan == Some(ExternalFanCommand::Stop) ==> next_state(
            state,
            RunEvent::Command(cmd),
            now,
        ).unwrap().fan == FanRunning::Stopped,
        cmd.fan is None ==> next_state(state, RunEvent::Command(cmd), now).unwrap().fan
            == state.fan,
        cmd.speed matches Some(speed) ==> next_state(state, RunEvent::Command(cmd), now).unwrap().speed
            == speed,
        cmd.speed is None ==> next_state(state, RunEvent::Command(cmd), now).unwrap().speed
            == state.speed,
{
}

} // verus!
