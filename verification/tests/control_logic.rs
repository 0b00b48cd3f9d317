use ms_air_filter::air_quality::{AirQualitySensor, AirQualitySensorConfig};
use ms_air_filter::control_logic::{
    get_any_presence, get_fan_command_for_occupied_air_quality,
    get_fan_command_for_presence_in_unknown_air_quality, get_worst_air_cleanliness,
    stateless_process, zone_mode, ControlError, ControlMode,
};
use ms_air_filter::presence::{PresenceSensor, PresenceSensorConfig};
use ms_air_filter::protocol::{ExternalCommand, ExternalFanCommand, FanSpeed};
use ms_air_filter::sensor::{AirCleanliness, MqttMessage};

fn message(topic: &str, payload: &str) -> MqttMessage {
    MqttMessage { topic: topic.to_string(), payload: payload.as_bytes().to_vec() }
}

fn air_sensor() -> AirQualitySensor<f64> {
    AirQualitySensorConfig {
        name: "a".into(),
        topic: "a".into(),
        pre_dirty_threshold: 8.0,
        dirty_threshold: 15.0,
        very_dirty_threshold: 50.0,
    }
    .into()
}

/// The payload read as a number and classified against the sensor's
/// thresholds: the floating-point part that the library leaves to its
/// caller.
fn parse(sensor: &AirQualitySensor<f64>, payload: &[u8]) -> Option<(f64, AirCleanliness)> {
    let value: f64 = std::str::from_utf8(payload).ok()?.parse().ok()?;
    let c = &sensor.config;
    Some((
        value,
        AirCleanliness::from_threshold_checks(
            value >= c.very_dirty_threshold,
            value >= c.dirty_threshold,
            value >= c.pre_dirty_threshold,
        ),
    ))
}

fn feed(sensor: &mut AirQualitySensor<f64>, msg: &MqttMessage) {
    let parsed = parse(sensor, &msg.payload);
    sensor.update_via_mqtt_message(msg, parsed).unwrap();
}

fn presence_sensor(timeout: u64) -> PresenceSensor {
    PresenceSensorConfig { name: "a".into(), topic: "a".into(), timeout }.into()
}

#[test]
fn presence_and_air_quality_clean_and_occupied_idle() {
    let mut presence_sensors: Vec<PresenceSensor> = vec![presence_sensor(0)];
    let mut air_quality_sensors: Vec<AirQualitySensor<f64>> = vec![air_sensor()];

    presence_sensors.first_mut().unwrap().update_via_mqtt_message(&message("a", "on")).unwrap();
    feed(air_quality_sensors.first_mut().unwrap(), &message("a", "5"));

    let ret = stateless_process(
        ControlMode::PresenceAndAirQuality,
        &presence_sensors,
        &air_quality_sensors,
    )
    .unwrap();

    assert_eq!(ret, ExternalCommand { fan: Some(ExternalFanCommand::Stop), speed: None });
}

#[test]
fn air_quality_only_no_sensors() {
    let air_quality_sensors = vec![air_sensor()];

    let ret = stateless_process(ControlMode::AirQualityOnly, &Vec::new(), &air_quality_sensors);

    assert!(ret.is_err());
}

#[test]
fn air_quality_only_idle() {
    let mut air_quality_sensors = vec![air_sensor()];
    feed(air_quality_sensors.first_mut().unwrap(), &message("a", "5"));

    let ret =
        stateless_process(ControlMode::AirQualityOnly, &Vec::new(), &air_quality_sensors).unwrap();

    assert_eq!(ret, ExternalCommand { fan: Some(ExternalFanCommand::Stop), speed: None });
}

#[test]
fn air_quality_only_pre_dirty() {
    let mut air_quality_sensors = vec![air_sensor()];
    feed(air_quality_sensors.first_mut().unwrap(), &message("a", "9"));

    let ret =
        stateless_process(ControlMode::AirQualityOnly, &Vec::new(), &air_quality_sensors).unwrap();

    assert_eq!(
        ret,
        ExternalCommand {
            fan: Some(ExternalFanCommand::RunFor { seconds: 120 }),
            speed: Some(FanSpeed::Low)
        }
    );
}

#[test]
fn air_quality_only_dirty() {
    let mut air_quality_sensors = vec![air_sensor()];
    feed(air_quality_sensors.first_mut().unwrap(), &message("a", "18.1"));

    let ret =
        stateless_process(ControlMode::AirQualityOnly, &Vec::new(), &air_quality_sensors).unwrap();

    assert_eq!(
        ret,
        ExternalCommand {
            fan: Some(ExternalFanCommand::RunFor { seconds: 120 }),
            speed: Some(FanSpeed::Medium)
        }
    );
}

#[test]
fn air_quality_only_very_dirty() {
    let mut air_quality_sensors = vec![air_sensor()];
    feed(air_quality_sensors.first_mut().unwrap(), &message("a", "50.1"));

    let ret =
        stateless_process(ControlMode::AirQualityOnly, &Vec::new(), &air_quality_sensors).unwrap();

    assert_eq!(
        ret,
        ExternalCommand {
            fan: Some(ExternalFanCommand::RunFor { seconds: 120 }),
            speed: Some(FanSpeed::High)
        }
    );
}

#[test]
fn presence_only_no_sensors() {
    let presence_sensors = vec![presence_sensor(20)];
    let no_air: Vec<AirQualitySensor<f64>> = Vec::new();

    let ret = stateless_process(ControlMode::PresenceOnly, &presence_sensors, &no_air);

    assert!(ret.is_err());
}

#[test]
fn presence_only_idle_after_timeout() {
    let mut presence_sensors: Vec<PresenceSensor> = vec![presence_sensor(0)];
    let no_air: Vec<AirQualitySensor<f64>> = Vec::new();

    presence_sensors.first_mut().unwrap().update_via_mqtt_message(&message("a", "on")).unwrap();
    // Two seconds later.
    presence_sensors.first_mut().unwrap().lapse_after(2);

    let ret = stateless_process(ControlMode::PresenceOnly, &presence_sensors, &no_air).unwrap();

    assert_eq!(ret, ExternalCommand { fan: Some(ExternalFanCommand::Stop), speed: None });
}

#[test]
fn presence_only_run() {
    let mut presence_sensors: Vec<PresenceSensor> = vec![presence_sensor(20)];
    let no_air: Vec<AirQualitySensor<f64>> = Vec::new();

    presence_sensors.first_mut().unwrap().update_via_mqtt_message(&message("a", "on")).unwrap();

    let ret = stateless_process(ControlMode::PresenceOnly, &presence_sensors, &no_air).unwrap();

    assert_eq!(
        ret,
        ExternalCommand { fan: Some(ExternalFanCommand::RunFor { seconds: 120 }), speed: None }
    );
}

#[test]
fn worst_air_is_the_dirtiest_classified_reading() {
    let mut sensors = vec![air_sensor(), air_sensor(), air_sensor()];
    assert_eq!(
        get_worst_air_cleanliness(&sensors),
        Err(ControlError::NoOperationalAirQualitySensors)
    );
    feed(&mut sensors[0], &message("a", "9"));
    feed(&mut sensors[2], &message("a", "20"));
    assert_eq!(get_worst_air_cleanliness(&sensors), Ok(AirCleanliness::Dirty));
    feed(&mut sensors[1], &message("a", "1"));
    assert_eq!(get_worst_air_cleanliness(&sensors), Ok(AirCleanliness::Dirty));
}

#[test]
fn any_presence_needs_a_reading() {
    let mut sensors = vec![presence_sensor(20), presence_sensor(20)];
    assert_eq!(get_any_presence(&sensors), Err(ControlError::NoOperationalPresenceSensors));
    sensors[0].update_via_mqtt_message(&message("a", "off")).unwrap();
    assert_eq!(get_any_presence(&sensors), Ok(false));
    sensors[1].update_via_mqtt_message(&message("a", "on")).unwrap();
    assert_eq!(get_any_presence(&sensors), Ok(true));
}

#[test]
fn occupied_commands_follow_the_air() {
    assert_eq!(
        get_fan_command_for_occupied_air_quality(AirCleanliness::Clean),
        ExternalCommand { fan: Some(ExternalFanCommand::Stop), speed: None }
    );
    assert_eq!(
        get_fan_command_for_occupied_air_quality(AirCleanliness::PreDirty),
        ExternalCommand {
            fan: Some(ExternalFanCommand::RunFor { seconds: 120 }),
            speed: Some(FanSpeed::Low)
        }
    );
    assert_eq!(
        get_fan_command_for_presence_in_unknown_air_quality(true),
        ExternalCommand { fan: Some(ExternalFanCommand::RunFor { seconds: 120 }), speed: None }
    );
    assert_eq!(
        get_fan_command_for_presence_in_unknown_air_quality(false),
        ExternalCommand { fan: Some(ExternalFanCommand::Stop), speed: None }
    );
}

#[test]
fn both_sensors_fall_back_on_each_other() {
    let mut presence = vec![presence_sensor(20)];
    let mut air = vec![air_sensor()];

    // Neither reports: the presence error.
    assert_eq!(
        stateless_process(ControlMode::PresenceAndAirQuality, &presence, &air),
        Err(ControlError::NoOperationalPresenceSensors)
    );

    // Only presence reports.
    presence[0].update_via_mqtt_message(&message("a", "on")).unwrap();
    assert_eq!(
        stateless_process(ControlMode::PresenceAndAirQuality, &presence, &air),
        Ok(ExternalCommand { fan: Some(ExternalFanCommand::RunFor { seconds: 120 }), speed: None })
    );

    // Unoccupied, air known: run at low speed.
    presence[0].update_via_mqtt_message(&message("a", "off")).unwrap();
    feed(&mut air[0], &message("a", "1"));
    assert_eq!(
        stateless_process(ControlMode::PresenceAndAirQuality, &presence, &air),
        Ok(ExternalCommand {
            fan: Some(ExternalFanCommand::RunFor { seconds: 120 }),
            speed: Some(FanSpeed::Low)
        })
    );

    // Only air reports.
    let no_presence = vec![presence_sensor(20)];
    feed(&mut air[0], &message("a", "60"));
    assert_eq!(
        stateless_process(ControlMode::PresenceAndAirQuality, &no_presence, &air),
        Ok(ExternalCommand {
            fan: Some(ExternalFanCommand::RunFor { seconds: 120 }),
            speed: Some(FanSpeed::High)
        })
    );
}

#[test]
fn zone_mode_follows_the_sensors() {
    let presence = vec![presence_sensor(20)];
    let air = vec![air_sensor()];
    let no_presence: Vec<PresenceSensor> = Vec::new();
    let no_air: Vec<AirQualitySensor<f64>> = Vec::new();
    assert_eq!(zone_mode(&presence, &air), ControlMode::PresenceAndAirQuality);
    assert_eq!(zone_mode(&presence, &no_air), ControlMode::PresenceOnly);
    assert_eq!(zone_mode(&no_presence, &air), ControlMode::AirQualityOnly);
    assert_eq!(
        ControlError::NoOperationalPresenceSensors.message(),
        "no operational presence sensors"
    );
}
