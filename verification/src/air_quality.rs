use crate::sensor::{AirCleanliness, MqttMessage, SensorError, SensorReading, Update, instant_now};
use std::time::Instant;
use vstd::prelude::*;

verus! {

/// An air-quality sensor: its name, the topic it publishes on, and the three
/// thresholds from which its values count as pre-dirty, dirty and very dirty.
/// The values are of type `V` (numbers read from the sensor's payload).
#[derive(Clone, Debug, PartialEq)]
pub struct AirQualitySensorConfig<V> {
    pub name: String,
    pub topic: String,
    pub pre_dirty_threshold: V,
    pub dirty_threshold: V,
    pub very_dirty_threshold: V,
}

/// An air-quality sensor and its latest reading, if it has reported one.
pub struct AirQualitySensor<V> {
    pub config: AirQualitySensorConfig<V>,
    pub reading: Option<SensorReading<V, AirCleanliness>>,
}

/// What an air-quality sensor answers to `msg`, whose payload reads as
/// `parsed` (a value and its class, or `None` when it is not a number).
pub open spec fn air_message_result<V>(
    sensor: AirQualitySensor<V>,
    msg: MqttMessage,
    parsed: Option<(V, AirCleanliness)>,
) -> Result<Update, SensorError> {
    if sensor.config.topic@ != msg.topic@ {
        Ok(Update::NotUpdated)
    } else if parsed is Some {
        Ok(Update::Updated)
    } else {
        Err(SensorError::UnreadableValue)
    }
}

/// `new` is `old` after it handled `msg`, whose payload reads as `parsed`: a
/// message on the sensor's topic with a readable value replaces the reading
/// by a fresh one with that value and class; any other message leaves the
/// sensor as it was.
pub open spec fn air_after_message<V>(
    old: AirQualitySensor<V>,
    new: AirQualitySensor<V>,
    msg: MqttMessage,
    parsed: Option<(V, AirCleanliness)>,
) -> bool {
    &&& new.config == old.config
    &&& if air_message_result(old, msg, parsed) == Ok::<Update, SensorError>(Update::Updated) {
        &&& new.reading matches Some(r)
        &&& r.value == parsed.unwrap().0
        &&& r.class == Some(parsed.unwrap().1)
    } else {
        new.reading == old.reading
    }
}

/// `new` is `old` after it handled, at `now`, `msg`, whose payload reads as
/// `parsed`: as `air_after_message` says, the fresh reading being taken at
/// `now`.
pub open spec fn air_after_message_at<V>(
    old: AirQualitySensor<V>,
    new: AirQualitySensor<V>,
    msg: MqttMessage,
    parsed: Option<(V, AirCleanliness)>,
    now: Instant,
) -> bool {
    &&& new.config == old.config
    &&& if air_message_result(old, msg, parsed) == Ok::<Update, SensorError>(Update::Updated) {
        new.reading == Some(
            SensorReading { value: parsed.unwrap().0, class: Some(parsed.unwrap().1), at: now },
        )
    } else {
        new.reading == old.reading
    }
}

/// A value with the outcomes of its comparisons with the three thresholds
/// (very dirty, dirty, pre-dirty), as the value and its class.
pub open spec fn classified<V>(checked: Option<(V, bool, bool, bool)>) -> Option<(V, AirCleanliness)> {
    match checked {
        Some((value, very_dirty, dirty, pre_dirty)) => Some(
            (value, AirCleanliness::classify(very_dirty, dirty, pre_dirty)),
        ),
        None => None,
    }
}

impl<V> AirQualitySensor<V> {
    /// The class of the sensor's latest reading, if it has one.
    pub open spec fn current_class(self) -> Option<AirCleanliness> {
        match self.reading {
            Some(r) => r.class,
            None => None,
        }
    }

    /// A sensor with this configuration and no reading yet.
    pub fn from_config(config: AirQualitySensorConfig<V>) -> (sensor: Self)
        ensures
            sensor.config == config,
            sensor.reading is None,
    {
        AirQualitySensor { config, reading: None }
    }

    /// The sensor's name.
    pub fn name(&self) -> (name: &str)
        ensures
            name@ == self.config.name@,
    {
        self.config.name.as_str()
    }

    /// Whether `msg` is addressed to this sensor: it was published on the
    /// sensor's topic.
    pub fn listens_to(&self, msg: &MqttMessage) -> (r: bool)
        ensures
            r == (self.config.topic@ == msg.topic@),
    {
        self.config.topic == msg.topic
    }

    /// Takes a fresh reading of `value` with class `class`, now: at an
    /// instant read from the clock.
    pub fn record_reading(&mut self, value: V, class: AirCleanliness) -> (r: Update)
        ensures
            r == Update::Updated,
            final(self).config == old(self).config,
            final(self).reading matches Some(reading) && reading.value == value && reading.class
                == Some(class),
    {
        self.record_reading_at(value, class, instant_now())
    }

    /// Takes a reading of `value` with class `class` at `now`.
    pub fn record_reading_at(&mut self, value: V, class: AirCleanliness, now: Instant) -> (r:
        Update)
        ensures
            r == Update::Updated,
            final(self).config == old(self).config,
            final(self).reading == Some(SensorReading { value, class: Some(class), at: now }),
    {
        self.reading = Some(SensorReading::new_at(value, Some(class), now));
        Update::Updated
    }

    /// Handles a message: on the sensor's topic, a payload that reads as a
    /// value (`parsed`: the value and its class against this sensor's
    /// thresholds) becomes the new reading, and one that does not is
    /// refused; messages on other topics are ignored.
    pub fn update_via_mqtt_message(
        &mut self,
        msg: &MqttMessage,
        parsed: Option<(V, AirCleanliness)>,
    ) -> (r: Result<Update, SensorError>)
        ensures
            r == air_message_result(*old(self), *msg, parsed),
            air_after_message(*old(self), *final(self), *msg, parsed),
    {
        self.update_via_mqtt_message_at(msg, parsed, instant_now())
    }

    /// Handles a message at `now`, as `update_via_mqtt_message` does, the
    /// fresh reading being taken at `now`.
    pub fn update_via_mqtt_message_at(
        &mut self,
        msg: &MqttMessage,
        parsed: Option<(V, AirCleanliness)>,
        now: Instant,
    ) -> (r: Result<Update, SensorError>)
        ensures
            r == air_message_result(*old(self), *msg, parsed),
            air_after_message_at(*old(self), *final(self), *msg, parsed, now),
    {
        if self.listens_to(msg) {
            match parsed {
                Some((value, class)) => Ok(self.record_reading_at(value, class, now)),
                None => Err(SensorError::UnreadableValue),
            }
        } else {
            Ok(Update::NotUpdated)
        }
    }

    /// Handles a message whose payload reads as a value that reaches, or not,
    /// each of the sensor's thresholds (`checked`: the value and whether it
    /// reaches the very-dirty, dirty and pre-dirty thresholds; `None` when
    /// the payload is not a number): the value is classified by the highest
    /// threshold it reaches, and then handled as `update_via_mqtt_message`
    /// does.
    pub fn update_via_threshold_checks(
        &mut self,
        msg: &MqttMessage,
        checked: Option<(V, bool, bool, bool)>,
    ) -> (r: Result<Update, SensorError>)
        ensures
            r == air_message_result(*old(self), *msg, classified(checked)),
            air_after_message(*old(self), *final(self), *msg, classified(checked)),
    {
        let parsed = match checked {
            Some((value, very_dirty, dirty, pre_dirty)) => Some(
                (value, AirCleanliness::from_threshold_checks(very_dirty, dirty, pre_dirty)),
            ),
            None => None,
        };
        self.update_via_mqtt_message(msg, parsed)
    }

    /// Handles the passing of time: air-quality readings do not lapse.
    pub fn update_via_time(&mut self) -> (r: Result<Update, SensorError>)
        ensures
            r == Ok::<Update, SensorError>(Update::NotUpdated),
            *final(self) == *old(self),
    {
        Ok(Update::NotUpdated)
    }
}

impl<V: Copy> AirQualitySensor<V> {
    /// The sensor's latest reading.
    pub fn reading(&self) -> (reading: Option<SensorReading<V, AirCleanliness>>)
        ensures
            reading == self.reading,
    {
        match &self.reading {
            Some(r) => Some(*r),
            None => None,
        }
    }
}

impl<V> From<AirQualitySensorConfig<V>> for AirQualitySensor<V> {
    fn from(config: AirQualitySensorConfig<V>) -> (sensor: Self) {
        AirQualitySensor { config, reading: None }
    }
}

impl<V> vstd::std_specs::convert::FromSpecImpl<AirQualitySensorConfig<V>> for AirQualitySensor<V> {
    open spec fn obeys_from_spec() -> bool {
        true
    }

    open spec fn from_spec(config: AirQualitySensorConfig<V>) -> Self {
        AirQualitySensor { config, reading: None }
    }
}

} // verus!
