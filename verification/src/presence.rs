use crate::sensor::{MqttMessage, SensorError, SensorReading, Update, instant_now};
use std::time::Instant;
use vstd::prelude::*;

verus! {

/// The bytes of the ASCII letters `o`, `n` and `f`.
pub const ASCII_O: u8 = 111;
pub const ASCII_N: u8 = 110;
pub const ASCII_F: u8 = 102;

/// Whether a presence sensor sees someone.
#[derive(Clone, Copy, Debug, PartialEq, Eq, Structural)]
pub enum Presence {
    Occupied,
    Unoccupied,
}

/// A presence sensor: its name, the topic it publishes on, and the number of
/// seconds after which an occupied reading lapses to unoccupied.
#[derive(Clone, Debug, PartialEq)]
pub struct PresenceSensorConfig {
    pub name: String,
    pub topic: String,
    pub timeout: u64,
}

/// A presence sensor and its latest reading, if it has reported one.
pub struct PresenceSensor {
    pub config: PresenceSensorConfig,
    pub reading: Option<SensorReading<Presence, ()>>,
}

/// The presence that a payload reports: `on` is occupied, `off` unoccupied,
/// anything else is not a presence.
pub open spec fn presence_for_payload(payload: Seq<u8>) -> Option<Presence> {
    if payload == seq![ASCII_O, ASCII_N] {
        Some(Presence::Occupied)
    } else if payload == seq![ASCII_O, ASCII_F, ASCII_F] {
        Some(Presence::Unoccupied)
    } else {
        None
    }
}

/// What a presence sensor answers to `msg`.
pub open spec fn presence_message_result(sensor: PresenceSensor, msg: MqttMessage) -> Result<
    Update,
    SensorError,
> {
    if sensor.config.topic@ != msg.topic@ {
        Ok(Update::NotUpdated)
    } else if presence_for_payload(msg.payload@) is Some {
        Ok(Update::Updated)
    } else {
        Err(SensorError::UnrecognisedPayload)
    }
}

/// `new` is `old` after it handled `msg`: a message on the sensor's topic
/// with a recognised payload replaces the reading by a fresh one with the
/// reported presence and no class; any other message leaves the sensor as it
/// was.
pub open spec fn presence_after_message(
    old: PresenceSensor,
    new: PresenceSensor,
    msg: MqttMessage,
) -> bool {
    &&& new.config == old.config
    &&& if presence_message_result(old, msg) == Ok::<Update, SensorError>(Update::Updated) {
        &&& new.reading matches Some(r)
        &&& Some(r.value) == presence_for_payload(msg.payload@)
        &&& r.class is None
    } else {
        new.reading == old.reading
    }
}

/// `new` is `old` after it handled `msg` at `now`: as `presence_after_message`
/// says, the fresh reading being taken at `now`.
pub open spec fn presence_after_message_at(
    old: PresenceSensor,
    new: PresenceSensor,
    msg: MqttMessage,
    now: Instant,
) -> bool {
    &&& new.config == old.config
    &&& if presence_message_result(old, msg) == Ok::<Update, SensorError>(Update::Updated) {
        new.reading == Some(
            SensorReading { value: presence_for_payload(msg.payload@).unwrap(), class: None::<()>, at: now },
        )
    } else {
        new.reading == old.reading
    }
}

/// The reading after the occupied state lapsed: unoccupied, with the instant
/// of the reading kept.
pub open spec fn lapsed(reading: SensorReading<Presence, ()>) -> SensorReading<Presence, ()> {
    SensorReading { value: Presence::Unoccupied, ..reading }
}

/// Whether a reading of age `age_secs` lapses under the sensor's timeout: it
/// reports an occupied space and is older than the timeout.
pub open spec fn lapses(sensor: PresenceSensor, age_secs: u64) -> bool {
    &&& sensor.reading matches Some(r)
    &&& r.value == Presence::Occupied
    &&& age_secs > sensor.config.timeout
}

fn payload_presence(payload: &Vec<u8>) -> (p: Option<Presence>)
    ensures
        p == presence_for_payload(payload@),
{
    let n = payload.len();
    if n == 2 && payload[0] == ASCII_O && payload[1] == ASCII_N {
        assert(payload@ =~= seq![ASCII_O, ASCII_N]);
        Some(Presence::Occupied)
    } else if n == 3 && payload[0] == ASCII_O && payload[1] == ASCII_F && payload[2] == ASCII_F {
        assert(payload@ =~= seq![ASCII_O, ASCII_F, ASCII_F]);
        Some(Presence::Unoccupied)
    } else {
        None
    }
}

impl PresenceSensor {
    /// A sensor with this configuration and no reading yet.
    pub fn from_config(config: PresenceSensorConfig) -> (sensor: Self)
        ensures
            sensor.config == config,
            sensor.reading is None,
    {
        PresenceSensor { config, reading: None }
    }

    /// The sensor's name.
    pub fn name(&self) -> (name: &str)
        ensures
            name@ == self.config.name@,
    {
        self.config.name.as_str()
    }

    /// The sensor's latest reading.
    pub fn reading(&self) -> (reading: Option<SensorReading<Presence, ()>>)
        ensures
            reading == self.reading,
    {
        match &self.reading {
            Some(r) => Some(*r),
            None => None,
        }
    }

    /// Handles a message: on the sensor's topic, `on` and `off` become the
    /// new reading; other payloads there are refused; messages on other
    /// topics are ignored.
    pub fn update_via_mqtt_message(&mut self, msg: &MqttMessage) -> (r: Result<Update, SensorError>)
        ensures
            r == presence_message_result(*old(self), *msg),
            presence_after_message(*old(self), *final(self), *msg),
    {
        self.update_via_mqtt_message_at(msg, instant_now())
    }

    /// Handles a message at `now`, as `update_via_mqtt_message` does, the
    /// fresh reading being taken at `now` (so that its timeout starts then).
    pub fn update_via_mqtt_message_at(&mut self, msg: &MqttMessage, now: Instant) -> (r: Result<
        Update,
        SensorError,
    >)
        ensures
            r == presence_message_result(*old(self), *msg),
            presence_after_message_at(*old(self), *final(self), *msg, now),
    {
        if self.config.topic == msg.topic {
            match payload_presence(&msg.payload) {
                Some(p) => {
                    self.reading = Some(SensorReading::new_at(p, None, now));
                    Ok(Update::Updated)
                },
                None => Err(SensorError::UnrecognisedPayload),
            }
        } else {
            Ok(Update::NotUpdated)
        }
    }

    /// Lets an occupied reading of age `age_secs` lapse to unoccupied when it
    /// is older than the sensor's timeout.
    pub fn lapse_after(&mut self, age_secs: u64) -> (r: Update)
        ensures
            final(self).config == old(self).config,
            lapses(*old(self), age_secs) ==> r == Update::Updated && final(self).reading == Some(
                lapsed(old(self).reading.unwrap()),
            ),
            !lapses(*old(self), age_secs) ==> r == Update::NotUpdated && final(self).reading
                == old(self).reading,
    {
        match &self.reading {
            Some(reading) => {
                if reading.value == Presence::Occupied && age_secs > self.config.timeout {
                    let mut next = *reading;
                    next.value = Presence::Unoccupied;
                    self.reading = Some(next);
                    Update::Updated
                } else {
                    Update::NotUpdated
                }
            },
            None => Update::NotUpdated,
        }
    }

    /// Handles the passing of time: an occupied reading older than the
    /// timeout lapses to unoccupied. Whether it is older is read from the
    /// clock, so either outcome may come; `lapse_after` decides for a given
    /// age.
    pub fn update_via_time(&mut self) -> (r: Result<Update, SensorError>)
        ensures
            final(self).config == old(self).config,
            r == Ok::<Update, SensorError>(Update::NotUpdated) && final(self).reading == old(
                self,
            ).reading || r == Ok::<Update, SensorError>(Update::Updated) && (exists|age_secs: u64|
                #[trigger] lapses(*old(self), age_secs)) && final(self).reading == Some(
                lapsed(old(self).reading.unwrap()),
            ),
    {
        let age_secs = match &self.reading {
            Some(reading) => reading.age_secs(),
            None => 0,
        };
        Ok(self.lapse_after(age_secs))
    }
}

impl From<PresenceSensorConfig> for PresenceSensor {
    fn from(config: PresenceSensorConfig) -> (sensor: Self) {
        PresenceSensor { config, reading: None }
    }
}

impl vstd::std_specs::convert::FromSpecImpl<PresenceSensorConfig> for PresenceSensor {
    open spec fn obeys_from_spec() -> bool {
        true
    }

    open spec fn from_spec(config: PresenceSensorConfig) -> Self {
        PresenceSensor { config, reading: None }
    }
}

} // verus!
