use ms_air_filter::air_quality::{AirQualitySensor, AirQualitySensorConfig};
use ms_air_filter::sensor::{AirCleanliness, MqttMessage, SensorError, SensorReading, Update};
use ms_air_filter::zone::{update_air_quality_via_mqtt_message_helper, update_air_quality_via_time_helper};

fn message(topic: &str, payload: &[u8]) -> MqttMessage {
    MqttMessage { topic: topic.to_string(), payload: payload.to_vec() }
}

/// The payload read as a number and classified against the sensor's
/// thresholds: the floating-point part that the library leaves to its
/// caller.
fn parse(sensor: &AirQualitySensor<f64>, payload: &[u8]) -> Option<(f64, AirCleanliness)> {
    let value: f64 = std::str::from_utf8(payload).ok()?.parse().ok()?;
    let c = &sensor.config;
    Some((
        value,
        AirCleanliness::from_threshold_checks(
            value >= c.very_dirty_threshold,
            value >= c.dirty_threshold,
            value >= c.pre_dirty_threshold,
        ),
    ))
}

fn feed(sensor: &mut AirQualitySensor<f64>, msg: &MqttMessage) -> Result<Update, SensorError> {
    let parsed = parse(sensor, &msg.payload);
    sensor.update_via_mqtt_message(msg, parsed)
}

#[test]
fn cleanliness_order() {
    assert!(AirCleanliness::Clean > AirCleanliness::PreDirty);

    let v = vec![AirCleanliness::PreDirty, AirCleanliness::VeryDirty];
    assert_eq!(v.into_iter().min().unwrap(), AirCleanliness::VeryDirty);
}

#[test]
fn basic() {
    let config = AirQualitySensorConfig {
        name: "test sensor".into(),
        topic: "test/value".into(),
        pre_dirty_threshold: 8.0,
        dirty_threshold: 15.0,
        very_dirty_threshold: 50.0,
    };

    let mut sensor: AirQualitySensor<f64> = config.clone().into();
    assert_eq!(sensor.config, config);

    assert_eq!(sensor.reading(), None);

    assert_eq!(feed(&mut sensor, &message("test/value", b"2.0")).ok(), Some(Update::Updated));

    let reading = sensor.reading().unwrap();
    assert_eq!(reading.value, 2.0);
    assert_eq!(reading.class, Some(AirCleanliness::Clean));

    assert_eq!(feed(&mut sensor, &message("test/value", b"9.0")).ok(), Some(Update::Updated));

    let reading = sensor.reading().unwrap();
    assert_eq!(reading.value, 9.0);
    assert_eq!(reading.class, Some(AirCleanliness::PreDirty));

    assert_eq!(feed(&mut sensor, &message("test/value", b"20.0")).ok(), Some(Update::Updated));

    let reading = sensor.reading().unwrap();
    assert_eq!(reading.value, 20.0);
    assert_eq!(reading.class, Some(AirCleanliness::Dirty));

    assert_eq!(feed(&mut sensor, &message("test/value", b"55.0")).ok(), Some(Update::Updated));

    let reading = sensor.reading().unwrap();
    assert_eq!(reading.value, 55.0);
    assert_eq!(reading.class, Some(AirCleanliness::VeryDirty));

    assert_eq!(feed(&mut sensor, &message("test/value", b"55.0")).ok(), Some(Update::Updated));

    let reading2 = sensor.reading().unwrap();
    assert_eq!(reading2.value, 55.0);
    assert_eq!(reading2.class, Some(AirCleanliness::VeryDirty));

    assert_ne!(reading, reading2);
}

#[test]
fn threshold_checks_pick_the_highest_threshold_reached() {
    assert_eq!(AirCleanliness::from_threshold_checks(true, true, true), AirCleanliness::VeryDirty);
    assert_eq!(AirCleanliness::from_threshold_checks(false, true, true), AirCleanliness::Dirty);
    assert_eq!(AirCleanliness::from_threshold_checks(false, false, true), AirCleanliness::PreDirty);
    assert_eq!(AirCleanliness::from_threshold_checks(false, false, false), AirCleanliness::Clean);
}

#[test]
fn rank_follows_the_order() {
    assert_eq!(AirCleanliness::VeryDirty.rank_of(), 0);
    assert_eq!(AirCleanliness::Dirty.rank_of(), 1);
    assert_eq!(AirCleanliness::PreDirty.rank_of(), 2);
    assert_eq!(AirCleanliness::Clean.rank_of(), 3);
}

#[test]
fn air_quality_sensor_ignores_other_topics() {
    let mut sensor = AirQualitySensor::from_config(AirQualitySensorConfig {
        name: "kitchen".into(),
        topic: "kitchen/pm25".into(),
        pre_dirty_threshold: 8.0,
        dirty_threshold: 15.0,
        very_dirty_threshold: 50.0,
    });
    assert_eq!(sensor.name(), "kitchen");
    assert!(!sensor.listens_to(&message("hall/pm25", b"99")));
    assert_eq!(feed(&mut sensor, &message("hall/pm25", b"99")), Ok(Update::NotUpdated));
    assert_eq!(feed(&mut sensor, &message("kitchen/pm25", b"dusty")), Err(SensorError::UnreadableValue));
    assert_eq!(sensor.reading(), None);
    assert_eq!(sensor.update_via_time(), Ok(Update::NotUpdated));
}

#[test]
fn air_quality_helpers() {
    use_helpers();
}

fn use_helpers() {
    let config = AirQualitySensorConfig {
        name: "a".into(),
        topic: "a".into(),
        pre_dirty_threshold: 8.0,
        dirty_threshold: 15.0,
        very_dirty_threshold: 50.0,
    };
    let mut sensors: Vec<AirQualitySensor<f64>> =
        vec![config.clone().into(), AirQualitySensorConfig { topic: "b".into(), ..config }.into()];
    let mut res = Update::NotUpdated;
    let refused = update_air_quality_via_mqtt_message_helper(
        &mut res,
        &message("a", b"x"),
        &mut sensors,
        &vec![None, None],
    );
    assert_eq!(refused, vec![0]);
    assert_eq!(res, Update::NotUpdated);
    let parsed: Vec<_> = sensors.iter().map(|s| parse(s, b"20")).collect();
    let refused =
        update_air_quality_via_mqtt_message_helper(&mut res, &message("a", b"20"), &mut sensors, &parsed);
    assert!(refused.is_empty());
    assert_eq!(res, Update::Updated);
    assert_eq!(sensors[0].reading().unwrap().class, Some(AirCleanliness::Dirty));
    assert_eq!(sensors[1].reading(), None);
    let mut res = Update::NotUpdated;
    update_air_quality_via_time_helper(&mut res, &mut sensors);
    assert_eq!(res, Update::NotUpdated);
    let r = sensors[0].reading().unwrap();
    let again = SensorReading::new_at(r.value, r.class, r.at);
    assert_eq!(again, r);
}

#[test]
fn readings_are_taken_at_the_given_instant() {
    let mut sensor = AirQualitySensor::from_config(AirQualitySensorConfig {
        name: "a".into(),
        topic: "a".into(),
        pre_dirty_threshold: 8.0,
        dirty_threshold: 15.0,
        very_dirty_threshold: 50.0,
    });
    let now = std::time::Instant::now();
    assert_eq!(sensor.update_via_mqtt_message_at(&message("a", b"9"), Some((9.0, AirCleanliness::PreDirty)), now), Ok(Update::Updated));
    assert_eq!(sensor.reading().unwrap().at, now);
    let later = now + std::time::Duration::from_secs(1);
    assert_eq!(sensor.record_reading_at(20.0, AirCleanliness::Dirty, later), Update::Updated);
    assert_eq!(sensor.reading().unwrap().at, later);
    assert_eq!(sensor.reading().unwrap().value, 20.0);
}

#[test]
fn threshold_checks_classify_the_message() {
    let mut sensor = AirQualitySensor::from_config(AirQualitySensorConfig {
        name: "a".into(),
        topic: "a".into(),
        pre_dirty_threshold: 8,
        dirty_threshold: 15,
        very_dirty_threshold: 50,
    });
    assert_eq!(sensor.update_via_threshold_checks(&message("a", b"20"), Some((20, false, true, true))), Ok(Update::Updated));
    assert_eq!(sensor.reading().unwrap().class, Some(AirCleanliness::Dirty));
    assert_eq!(sensor.update_via_threshold_checks(&message("a", b"x"), None), Err(SensorError::UnreadableValue));
    assert_eq!(sensor.update_via_threshold_checks(&message("b", b"60"), Some((60, true, true, true))), Ok(Update::NotUpdated));
    assert_eq!(sensor.reading().unwrap().value, 20);
    // A larger value reaches every threshold a smaller one does, and is never classed cleaner.
    let classes: Vec<AirCleanliness> = [1, 9, 20, 60]
        .iter()
        .map(|v| AirCleanliness::from_threshold_checks(*v >= 50, *v >= 15, *v >= 8))
        .collect();
    assert!(classes.windows(2).all(|w| w[1] <= w[0]));
}
