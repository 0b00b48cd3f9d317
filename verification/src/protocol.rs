use vstd::prelude::*;

verus! {

/// The three speeds of the fan.
#[derive(Clone, Copy, Debug, PartialEq, Eq, Structural)]
pub enum FanSpeed {
    Low,
    Medium,
    High,
}

/// What the fan should do: stop, or run for a number of seconds.
#[derive(Clone, Copy, Debug, PartialEq, Eq, Structural)]
pub enum ExternalFanCommand {
    Stop,
    RunFor { seconds: u64 },
}

/// A command sent to the fan unit; each part left out keeps the unit's
/// current setting.
#[derive(Clone, Copy, Debug, PartialEq, Eq, Structural)]
pub struct ExternalCommand {
    pub fan: Option<ExternalFanCommand>,
    pub speed: Option<FanSpeed>,
}

} // verus!
