use crate::protocol::FanSpeed;
use vstd::prelude::*;

verus! {

/// What the fan driver is told to do.
#[derive(Clone, Copy, Debug, PartialEq, Eq, Structural)]
pub enum FanCommand {
    Stop,
    Run(FanSpeed),
}

/// The name under which a fan command is published.
pub open spec fn fan_command_label(cmd: FanCommand) -> Seq<char> {
    match cmd {
        FanCommand::Stop => "stop"@,
        FanCommand::Run(FanSpeed::Low) => "low"@,
        FanCommand::Run(FanSpeed::Medium) => "medium"@,
        FanCommand::Run(FanSpeed::High) => "high"@,
    }
}

/// The name under which `cmd` is published.
pub fn fan_command_name(cmd: FanCommand) -> (name: &'static str)
    ensures
        name@ == fan_command_label(cmd),
{
    match cmd {
        FanCommand::Stop => "stop",
        FanCommand::Run(FanSpeed::Low) => "low",
        FanCommand::Run(FanSpeed::Medium) => "medium",
        FanCommand::Run(FanSpeed::High) => "high",
    }
}

/// The relay outputs of the fan unit: one contactor per speed, and the
/// voltage (high: 24 V, low: 5 V) that drives the contactors.
#[derive(Clone, Copy, Debug, PartialEq, Eq, Structural)]
pub enum Relay {
    SpeedLow,
    SpeedMedium,
    SpeedHigh,
    ContactorVoltage,
}

/// One step of switching the fan: drive a relay output high or low, or wait
/// a number of milliseconds.
#[derive(Clone, Copy, Debug, PartialEq, Eq, Structural)]
pub enum RelayStep {
    Drive { relay: Relay, high: bool },
    Wait { millis: u64 },
}

/// The state of the four relay outputs.
#[derive(Clone, Copy, Debug, PartialEq, Eq, Structural)]
pub struct RelayOutputs {
    pub low: bool,
    pub medium: bool,
    pub high: bool,
    pub contactor_voltage: bool,
}

/// How long to wait after opening the speed contactors, and after raising the
/// contactor voltage, in milliseconds.
pub const SETTLE_MILLIS: u64 = 10;

/// How long the contactor voltage stays at 24 V after a speed contactor is
/// closed, in milliseconds.
pub const PULL_IN_MILLIS: u64 = 500;

/// How long a new speed is held before another command is taken, in
/// milliseconds.
pub const HOLD_MILLIS: u64 = 1000;

/// The speed contactor that selects `speed`.
pub open spec fn speed_relay(speed: FanSpeed) -> Relay {
    match speed {
        FanSpeed::Low => Relay::SpeedLow,
        FanSpeed::Medium => Relay::SpeedMedium,
        FanSpeed::High => Relay::SpeedHigh,
    }
}

/// The steps that take the fan from `last` to `cmd`: none when they are the
/// same; otherwise open all speed contactors and let them settle, then, for a
/// running command, raise the contactor voltage, close the contactor of the
/// speed, let it pull in, and lower the voltage again; and finally hold the
/// new setting.
pub open spec fn switch_plan(last: FanCommand, cmd: FanCommand) -> Seq<RelayStep> {
    if cmd == last {
        seq![]
    } else {
        let open_all = seq![
            RelayStep::Drive { relay: Relay::SpeedLow, high: false },
            RelayStep::Drive { relay: Relay::SpeedMedium, high: false },
            RelayStep::Drive { relay: Relay::SpeedHigh, high: false },
            RelayStep::Wait { millis: SETTLE_MILLIS },
        ];
        let close_speed = match cmd {
            FanCommand::Stop => seq![],
            FanCommand::Run(speed) => seq![
                RelayStep::Drive { relay: Relay::ContactorVoltage, high: true },
                RelayStep::Wait { millis: SETTLE_MILLIS },
                RelayStep::Drive { relay: speed_relay(speed), high: true },
                RelayStep::Wait { millis: PULL_IN_MILLIS },
                RelayStep::Drive { relay: Relay::ContactorVoltage, high: false },
            ],
        };
        open_all + close_speed + seq![RelayStep::Wait { millis: HOLD_MILLIS }]
    }
}

/// The outputs after one step.
pub open spec fn apply_step(outputs: RelayOutputs, step: RelayStep) -> RelayOutputs {
    match step {
        RelayStep::Wait { .. } => outputs,
        RelayStep::Drive { relay, high } => match relay {
            Relay::SpeedLow => RelayOutputs { low: high, ..outputs },
            Relay::SpeedMedium => RelayOutputs { medium: high, ..outputs },
            Relay::SpeedHigh => RelayOutputs { high: high, ..outputs },
            Relay::ContactorVoltage => RelayOutputs { contactor_voltage: high, ..outputs },
        },
    }
}

/// The outputs after the steps of `plan`, in order.
pub open spec fn apply_plan(outputs: RelayOutputs, plan: Seq<RelayStep>) -> RelayOutputs
    decreases plan.len(),
{
    if plan.len() == 0 {
        outputs
    } else {
        apply_step(apply_plan(outputs, plan.drop_last()), plan.last())
    }
}

/// The number of closed speed contactors.
pub open spec fn closed_speed_contactors(outputs: RelayOutputs) -> nat {
    (if outputs.low {
        1nat
    } else {
        0nat
    }) + (if outputs.medium {
        1nat
    } else {
        0nat
    }) + (if outputs.high {
        1nat
    } else {
        0nat
    })
}

/// The outputs once the fan runs as `cmd` says: the contactor of its speed
/// closed, or none for a stop, at 5 V.
pub open spec fn outputs_for(cmd: FanCommand) -> RelayOutputs {
    match cmd {
        FanCommand::Stop => RelayOutputs {
            low: false,
            medium: false,
            high: false,
            contactor_voltage: false,
        },
        FanCommand::Run(speed) => RelayOutputs {
            low: speed == FanSpeed::Low,
            medium: speed == FanSpeed::Medium,
            high: speed == FanSpeed::High,
            contactor_voltage: false,
        },
    }
}

fn speed_relay_of(speed: FanSpeed) -> (relay: Relay)
    ensures
        relay == speed_relay(speed),
{
    match speed {
        FanSpeed::Low => Relay::SpeedLow,
        FanSpeed::Medium => Relay::SpeedMedium,
        FanSpeed::High => Relay::SpeedHigh,
    }
}

/// The steps that take the fan from the last command it carried out, `last`,
/// to `cmd`.
pub fn fan_switch_plan(last: FanCommand, cmd: FanCommand) -> (plan: Vec<RelayStep>)
    ensures
        plan@ == switch_plan(last, cmd),
{
    let mut plan: Vec<RelayStep> = Vec::new();
    if cmd == last {
        return plan;
    }
    plan.push(RelayStep::Drive { relay: Relay::SpeedLow, high: false });
    plan.push(RelayStep::Drive { relay: Relay::SpeedMedium, high: false });
    plan.push(RelayStep::Drive { relay: Relay::SpeedHigh, high: false });
    plan.push(RelayStep::Wait { millis: SETTLE_MILLIS });
    match cmd {
        FanCommand::Stop => {},
        FanCommand::Run(speed) => {
            plan.push(RelayStep::Drive { relay: Relay::ContactorVoltage, high: true });
            plan.push(RelayStep::Wait { millis: SETTLE_MILLIS });
            plan.push(RelayStep::Drive { relay: speed_relay_of(speed), high: true });
            plan.push(RelayStep::Wait { millis: PULL_IN_MILLIS });
            plan.push(RelayStep::Drive { relay: Relay::ContactorVoltage, high: false });
        },
    }
    plan.push(RelayStep::Wait { millis: HOLD_MILLIS });
    assert(plan@ =~= switch_plan(last, cmd));
    plan
}

/// The steps that drive every relay output low: the speed contactors from
/// the highest speed down, then the contactor voltage.
pub open spec fn shutdown_steps() -> Seq<RelayStep> {
    seq![
        RelayStep::Drive { relay: Relay::SpeedHigh, high: false },
        RelayStep::Drive { relay: Relay::SpeedMedium, high: false },
        RelayStep::Drive { relay: Relay::SpeedLow, high: false },
        RelayStep::Drive { relay: Relay::ContactorVoltage, high: false },
    ]
}

/// The steps that turn off all fan outputs, as after a fault.
pub fn shutdown_plan() -> (plan: Vec<RelayStep>)
    ensures
        plan@ == shutdown_steps(),
{
    let mut plan: Vec<RelayStep> = Vec::new();
    plan.push(RelayStep::Drive { relay: Relay::SpeedHigh, high: false });
    plan.push(RelayStep::Drive { relay: Relay::SpeedMedium, high: false });
    plan.push(RelayStep::Drive { relay: Relay::SpeedLow, high: false });
    plan.push(RelayStep::Drive { relay: Relay::ContactorVoltage, high: false });
    assert(plan@ =~= shutdown_steps());
    plan
}

/// The step closes a speed contactor.
pub open spec fn closes_speed_contactor(step: RelayStep) -> bool {
    step matches RelayStep::Drive { relay, high } && high && relay != Relay::ContactorVoltage
}

/// Applying the first `k + 1` steps is applying the first `k` and then step
/// `k`.
proof fn lemma_apply_prefix(start: RelayOutputs, plan: Seq<RelayStep>, k: int)
    requires
        0 <= k < plan.len(),
    ensures
        apply_plan(start, plan.take(k + 1)) == apply_step(apply_plan(start, plan.take(k)), plan[k]),
{
    assert(plan.take(k + 1).drop_last() =~= plan.take(k));
}

/// The outputs after the first `k` steps of the plan from `last` to a
/// different `cmd`.
proof fn lemma_switch_prefix(start: RelayOutputs, last: FanCommand, cmd: FanCommand, k: int)
    requires
        cmd != last,
        0 <= k <= switch_plan(last, cmd).len(),
    ensures
        ({
            let plan = switch_plan(last, cmd);
            let now = apply_plan(start, plan.take(k));
            &&& closed_speed_contactors(start) <= 1 ==> closed_speed_contactors(now) <= 1
            &&& (k <= 6 || cmd is Stop) ==> (k >= 1 ==> !now.low) && (k >= 2 ==> !now.medium) && (
            k >= 3 ==> !now.high)
            &&& (cmd is Run && 5 <= k <= 6) ==> now.contactor_voltage
            &&& (cmd is Run && k >= 7) ==> now.low == outputs_for(cmd).low && now.medium
                == outputs_for(cmd).medium && now.high == outputs_for(cmd).high
                && now.contactor_voltage == (k < 9)
            &&& (!start.contactor_voltage && (cmd is Stop || k <= 4)) ==> !now.contactor_voltage
            &&& (k < plan.len() && closes_speed_contactor(plan[k])) ==> now.contactor_voltage
        }),
    decreases k,
{
    let plan = switch_plan(last, cmd);
    if k == 0 {
        assert(plan.take(0) =~= Seq::<RelayStep>::empty());
    } else {
        lemma_switch_prefix(start, last, cmd, k - 1);
        lemma_apply_prefix(start, plan, k - 1);
    }
}

/// Switching relays never closes two speed contactors at once, and closes a
/// speed contactor only while the contactor voltage is at 24 V: from outputs
/// with at most one speed contactor closed, every state along the plan that
/// takes the fan from `last` to `cmd` has at most one closed, and each step
/// that closes a speed contactor comes while the voltage is high.
pub proof fn switching_keeps_speed_contactors_exclusive(
    start: RelayOutputs,
    last: FanCommand,
    cmd: FanCommand,
)
    requires
        closed_speed_contactors(start) <= 1,
    ensures
        forall|k: int|
            0 <= k <= switch_plan(last, cmd).len() ==> closed_speed_contactors(
                #[trigger] apply_plan(start, switch_plan(last, cmd).take(k)),
            ) <= 1,
        forall|k: int|
            0 <= k < switch_plan(last, cmd).len() && closes_speed_contactor(
                #[trigger] switch_plan(last, cmd)[k],
            ) ==> apply_plan(start, switch_plan(last, cmd).take(k)).contactor_voltage,
{
    let plan = switch_plan(last, cmd);
    assert forall|k: int| 0 <= k <= plan.len() implies closed_speed_contactors(
        #[trigger] apply_plan(start, plan.take(k)),
    ) <= 1 by {
        if cmd == last {
            assert(plan.take(k) =~= Seq::<RelayStep>::empty());
        } else {
            lemma_switch_prefix(start, last, cmd, k);
        }
    }
    assert forall|k: int|
        0 <= k < plan.len() && closes_speed_contactor(#[trigger] plan[k]) implies apply_plan(
        start,
        plan.take(k),
    ).contactor_voltage by {
        lemma_switch_prefix(start, last, cmd, k);
    }
}

/// Switching reaches the outputs of the new command: from outputs at 5 V, the
/// plan that takes the fan from `last` to a different `cmd` leaves exactly
/// the contactor of `cmd`'s speed closed (none for a stop), at 5 V.
pub proof fn switching_reaches_command(start: RelayOutputs, last: FanCommand, cmd: FanCommand)
    requires
        !start.contactor_voltage,
        cmd != last,
    ensures
        apply_plan(start, switch_plan(last, cmd)) == outputs_for(cmd),
{
    let plan = switch_plan(last, cmd);
    lemma_switch_prefix(start, last, cmd, plan.len() as int);
    assert(plan.take(plan.len() as int) =~= plan);
}

/// Shutting down drives every output low, whatever they were.
pub proof fn shutdown_turns_everything_off(start: RelayOutputs)
    ensures
        apply_plan(start, shutdown_steps()) == outputs_for(FanCommand::Stop),
{
    reveal_with_fuel(apply_plan, 5);
    let p = shutdown_steps();
    assert(p.drop_last() =~= seq![p[0], p[1], p[2]]);
    assert(p.drop_last().drop_last() =~= seq![p[0], p[1]]);
    assert(p.drop_last().drop_last().drop_last() =~= seq![p[0]]);
    assert(p.drop_last().drop_last().drop_last().drop_last() =~= Seq::<RelayStep>::empty());
}

} // verus!
