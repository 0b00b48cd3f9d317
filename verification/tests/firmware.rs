use ms_air_filter::control_logic::get_fan_command_for_occupied_air_quality;
use ms_air_filter::sensor::AirCleanliness;
use ms_air_filter::fan::{fan_command_name, fan_switch_plan, shutdown_plan, FanCommand, Relay, RelayStep};
use ms_air_filter::protocol::{ExternalCommand, ExternalFanCommand, FanSpeed};
use ms_air_filter::run_logic::{
    initial_fan_trigger_command, FanRunning, RunEvent, State, TICKS_PER_SECOND,
};

#[test]
fn fan_command_names() {
    assert_eq!(fan_command_name(FanCommand::Stop), "stop");
    assert_eq!(fan_command_name(FanCommand::Run(FanSpeed::Low)), "low");
    assert_eq!(fan_command_name(FanCommand::Run(FanSpeed::Medium)), "medium");
    assert_eq!(fan_command_name(FanCommand::Run(FanSpeed::High)), "high");
}

#[test]
fn switching_opens_all_then_closes_one() {
    assert!(fan_switch_plan(FanCommand::Stop, FanCommand::Stop).is_empty());
    let plan = fan_switch_plan(FanCommand::Stop, FanCommand::Run(FanSpeed::Medium));
    assert_eq!(
        plan,
        vec![
            RelayStep::Drive { relay: Relay::SpeedLow, high: false },
            RelayStep::Drive { relay: Relay::SpeedMedium, high: false },
            RelayStep::Drive { relay: Relay::SpeedHigh, high: false },
            RelayStep::Wait { millis: 10 },
            RelayStep::Drive { relay: Relay::ContactorVoltage, high: true },
            RelayStep::Wait { millis: 10 },
            RelayStep::Drive { relay: Relay::SpeedMedium, high: true },
            RelayStep::Wait { millis: 500 },
            RelayStep::Drive { relay: Relay::ContactorVoltage, high: false },
            RelayStep::Wait { millis: 1000 },
        ]
    );
    let plan = fan_switch_plan(FanCommand::Run(FanSpeed::Medium), FanCommand::Stop);
    assert_eq!(
        plan,
        vec![
            RelayStep::Drive { relay: Relay::SpeedLow, high: false },
            RelayStep::Drive { relay: Relay::SpeedMedium, high: false },
            RelayStep::Drive { relay: Relay::SpeedHigh, high: false },
            RelayStep::Wait { millis: 10 },
            RelayStep::Wait { millis: 1000 },
        ]
    );
    assert_eq!(shutdown_plan().len(), 4);
}

#[test]
fn run_logic_follows_commands() {
    let mut state = State::initial();
    assert_eq!(state, State { fan: FanRunning::Stopped, speed: FanSpeed::Low });
    assert_eq!(state.fan_off_time(), None);

    let now = 5 * TICKS_PER_SECOND;
    let out = state.step(RunEvent::Command(initial_fan_trigger_command()), now);
    assert_eq!(out, Some(FanCommand::Run(FanSpeed::Low)));
    assert_eq!(state.fan, FanRunning::Running { until: now + 300 * TICKS_PER_SECOND });
    assert_eq!(state.fan_off_time(), Some(305 * TICKS_PER_SECOND));

    // The same command again at the same instant changes nothing.
    assert_eq!(state.step(RunEvent::Command(initial_fan_trigger_command()), now), None);

    // A new speed.
    let out = state.step(
        RunEvent::Command(ExternalCommand { fan: None, speed: Some(FanSpeed::High) }),
        now + 1,
    );
    assert_eq!(out, Some(FanCommand::Run(FanSpeed::High)));

    // Lost commands change nothing.
    assert_eq!(state.step(RunEvent::Lagged { lost: 3 }, now + 2), None);

    // Time is up: stop, keep the speed.
    assert_eq!(state.step(RunEvent::FanOffTimeout, now + 3), Some(FanCommand::Stop));
    assert_eq!(state, State { fan: FanRunning::Stopped, speed: FanSpeed::High });
    assert_eq!(state.step(RunEvent::FanOffTimeout, now + 4), None);

    // An explicit stop while stopped sends nothing.
    assert_eq!(
        state.step(
            RunEvent::Command(ExternalCommand { fan: Some(ExternalFanCommand::Stop), speed: None }),
            now + 5
        ),
        None
    );
    assert_eq!(
        FanRunning::from_command(ExternalFanCommand::RunFor { seconds: 120 }, 7),
        FanRunning::Running { until: 7 + 120 * TICKS_PER_SECOND }
    );
}

#[test]
fn switching_never_closes_two_speed_contactors() {
    let commands = [
        FanCommand::Stop,
        FanCommand::Run(FanSpeed::Low),
        FanCommand::Run(FanSpeed::Medium),
        FanCommand::Run(FanSpeed::High),
    ];
    for last in commands {
        for cmd in commands {
            // Start from the outputs of `last`: its contactor closed, at 5 V.
            let mut outputs = [
                last == FanCommand::Run(FanSpeed::Low),
                last == FanCommand::Run(FanSpeed::Medium),
                last == FanCommand::Run(FanSpeed::High),
                false,
            ];
            for step in fan_switch_plan(last, cmd) {
                if let RelayStep::Drive { relay, high } = step {
                    let i = match relay {
                        Relay::SpeedLow => 0,
                        Relay::SpeedMedium => 1,
                        Relay::SpeedHigh => 2,
                        Relay::ContactorVoltage => 3,
                    };
                    if high && i < 3 {
                        assert!(outputs[3], "closing a contactor at 5 V");
                    }
                    outputs[i] = high;
                }
                assert!(outputs[..3].iter().filter(|b| **b).count() <= 1);
            }
            let expected = [
                cmd == FanCommand::Run(FanSpeed::Low),
                cmd == FanCommand::Run(FanSpeed::Medium),
                cmd == FanCommand::Run(FanSpeed::High),
                false,
            ];
            assert_eq!(outputs, expected);
        }
    }
}

#[test]
fn controller_command_drives_fan_unit() {
    let mut state = State::initial();
    let cmd = get_fan_command_for_occupied_air_quality(AirCleanliness::Dirty);
    assert_eq!(state.step(RunEvent::Command(cmd), 0), Some(FanCommand::Run(FanSpeed::Medium)));
    let cmd = get_fan_command_for_occupied_air_quality(AirCleanliness::Clean);
    assert_eq!(state.step(RunEvent::Command(cmd), 1), Some(FanCommand::Stop));
    assert_eq!(state.speed, FanSpeed::Medium);
}
