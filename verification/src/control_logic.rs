use crate::air_quality::AirQualitySensor;
use crate::presence::{Presence, PresenceSensor};
use crate::protocol::{ExternalCommand, ExternalFanCommand, FanSpeed};
use crate::sensor::AirCleanliness;
use vstd::prelude::*;

verus! {

/// Which sensors a zone's decision rests on.
#[derive(Clone, Copy, Debug, PartialEq, Eq, Structural)]
pub enum ControlMode {
    PresenceAndAirQuality,
    AirQualityOnly,
    PresenceOnly,
}

/// Why no command could be decided.
#[derive(Clone, Copy, Debug, PartialEq, Eq, Structural)]
pub enum ControlError {
    /// No air-quality sensor has a classified reading.
    NoOperationalAirQualitySensors,
    /// No presence sensor has a reading.
    NoOperationalPresenceSensors,
}

impl ControlError {
    /// A description of the error, for logs.
    pub fn message(&self) -> (m: &'static str)
        ensures
            m@ == (match self {
                ControlError::NoOperationalAirQualitySensors => "no operational air quality sensors"@,
                ControlError::NoOperationalPresenceSensors => "no operational presence sensors"@,
            }),
    {
        match self {
            ControlError::NoOperationalAirQualitySensors => "no operational air quality sensors",
            ControlError::NoOperationalPresenceSensors => "no operational presence sensors",
        }
    }
}

/// How long the fan is asked to run, in seconds, whenever it is asked to run.
pub const RUN_SECONDS: u64 = 120;

/// The class of air at or above which (in the order of `AirCleanliness`) the
/// fan runs in an unoccupied zone.
pub const UNOCCUPIED_RUN_THRESHOLD: AirCleanliness = AirCleanliness::VeryDirty;

/// The dirtiest of the classes present in `classes`, the first one of them
/// where several are equally dirty; `None` when no class is present.
pub open spec fn worst_of(classes: Seq<Option<AirCleanliness>>) -> Option<AirCleanliness>
    decreases classes.len(),
{
    if classes.len() == 0 {
        None
    } else {
        let rest = worst_of(classes.drop_last());
        match classes.last() {
            None => rest,
            Some(c) => match rest {
                None => Some(c),
                Some(w) => if c.rank() < w.rank() {
                    Some(c)
                } else {
                    Some(w)
                },
            },
        }
    }
}

/// The class of each sensor's latest reading.
pub open spec fn air_classes<V>(sensors: Seq<AirQualitySensor<V>>) -> Seq<Option<AirCleanliness>> {
    sensors.map_values(|s: AirQualitySensor<V>| s.current_class())
}

/// The worst air that the sensors report, or the error when none reports a
/// class.
pub open spec fn worst_air_cleanliness<V>(sensors: Seq<AirQualitySensor<V>>) -> Result<
    AirCleanliness,
    ControlError,
> {
    match worst_of(air_classes(sensors)) {
        Some(c) => Ok(c),
        None => Err(ControlError::NoOperationalAirQualitySensors),
    }
}

/// Some presence sensor has a reading.
pub open spec fn any_reading(sensors: Seq<PresenceSensor>) -> bool {
    exists|i: int| 0 <= i < sensors.len() && (#[trigger] sensors[i]).reading is Some
}

/// The sensor's latest reading is `Occupied`.
pub open spec fn reads_occupied(sensor: PresenceSensor) -> bool {
    sensor.reading matches Some(r) && r.value == Presence::Occupied
}

/// Some presence sensor's reading is `Occupied`.
pub open spec fn any_occupied(sensors: Seq<PresenceSensor>) -> bool {
    exists|i: int| 0 <= i < sensors.len() && #[trigger] reads_occupied(sensors[i])
}

/// Whether the zone is occupied by what its presence sensors report, or the
/// error when none has a reading.
pub open spec fn any_presence(sensors: Seq<PresenceSensor>) -> Result<bool, ControlError> {
    if any_reading(sensors) {
        Ok(any_occupied(sensors))
    } else {
        Err(ControlError::NoOperationalPresenceSensors)
    }
}

/// The command for an occupied zone with air of class `c`: clean air stops
/// the fan; otherwise it runs, the faster the dirtier the air.
pub open spec fn occupied_command(c: AirCleanliness) -> ExternalCommand {
    ExternalCommand {
        fan: Some(
            match c {
                AirCleanliness::Clean => ExternalFanCommand::Stop,
                _ => ExternalFanCommand::RunFor { seconds: RUN_SECONDS },
            },
        ),
        speed: match c {
            AirCleanliness::VeryDirty => Some(FanSpeed::High),
            AirCleanliness::Dirty => Some(FanSpeed::Medium),
            AirCleanliness::PreDirty => Some(FanSpeed::Low),
            AirCleanliness::Clean => None,
        },
    }
}

/// The command when only presence is known: run while occupied, stop
/// otherwise, speed left as it is.
pub open spec fn presence_command(occupied: bool) -> ExternalCommand {
    ExternalCommand {
        fan: Some(
            if occupied {
                ExternalFanCommand::RunFor { seconds: RUN_SECONDS }
            } else {
                ExternalFanCommand::Stop
            },
        ),
        speed: None,
    }
}

/// The command for an unoccupied zone with air of class `c`: run at low speed
/// when `c` is at or above `UNOCCUPIED_RUN_THRESHOLD` in the order of
/// `AirCleanliness`, stop otherwise.
pub open spec fn unoccupied_command(c: AirCleanliness) -> ExternalCommand {
    if c.rank() >= UNOCCUPIED_RUN_THRESHOLD.rank() {
        ExternalCommand {
            fan: Some(ExternalFanCommand::RunFor { seconds: RUN_SECONDS }),
            speed: Some(FanSpeed::Low),
        }
    } else {
        ExternalCommand { fan: Some(ExternalFanCommand::Stop), speed: None }
    }
}

/// The decision of a zone in `mode`, from what its air-quality sensors and
/// its presence sensors report. With both kinds of sensor, a failure of one
/// kind falls back on the other.
pub open spec fn decide(
    mode: ControlMode,
    cleanliness: Result<AirCleanliness, ControlError>,
    presence: Result<bool, ControlError>,
) -> Result<ExternalCommand, ControlError> {
    match mode {
        ControlMode::PresenceAndAirQuality => match cleanliness {
            Err(_) => match presence {
                Ok(p) => Ok(presence_command(p)),
                Err(e) => Err(e),
            },
            Ok(c) => match presence {
                Err(_) => Ok(occupied_command(c)),
                Ok(p) => if p {
                    Ok(occupied_command(c))
                } else {
                    Ok(unoccupied_command(c))
                },
            },
        },
        ControlMode::AirQualityOnly => match cleanliness {
            Ok(c) => Ok(occupied_command(c)),
            Err(e) => Err(e),
        },
        ControlMode::PresenceOnly => match presence {
            Ok(p) => Ok(presence_command(p)),
            Err(e) => Err(e),
        },
    }
}

/// The mode of a zone with or without presence sensors and with or without
/// air-quality sensors.
pub open spec fn mode_for(have_presence: bool, have_air_quality: bool) -> ControlMode {
    if have_presence && have_air_quality {
        ControlMode::PresenceAndAirQuality
    } else if have_presence {
        ControlMode::PresenceOnly
    } else {
        ControlMode::AirQualityOnly
    }
}

/// The worst air among the classified readings of the sensors.
pub fn get_worst_air_cleanliness<V>(air_quality_sensors: &[AirQualitySensor<V>]) -> (r: Result<
    AirCleanliness,
    ControlError,
>)
    ensures
        r == worst_air_cleanliness(air_quality_sensors@),
        r is Err <==> forall|i: int|
            0 <= i < air_quality_sensors@.len() ==> (
            #[trigger] air_quality_sensors@[i].current_class()) is None,
        r matches Ok(c) ==> (exists|i: int|
            0 <= i < air_quality_sensors@.len() && #[trigger] air_quality_sensors@[i].current_class()
                == Some(c)),
        r matches Ok(c) ==> (forall|i: int|
            0 <= i < air_quality_sensors@.len() && (
            #[trigger] air_quality_sensors@[i].current_class()) is Some ==> c.rank()
                <= air_quality_sensors@[i].current_class().unwrap().rank()),
{
    proof {
        zone_decides_on_the_dirtiest_reading(air_quality_sensors@);
    }
    let ghost classes = air_classes(air_quality_sensors@);
    let mut worst: Option<AirCleanliness> = None;
    let mut i: usize = 0;
    while i < air_quality_sensors.len()
        invariant
            i <= air_quality_sensors@.len(),
            classes == air_classes(air_quality_sensors@),
            worst == worst_of(classes.take(i as int)),
        decreases air_quality_sensors@.len() - i,
    {
        let class = match &air_quality_sensors[i].reading {
            Some(r) => r.class,
            None => None,
        };
        assert(classes.take(i + 1).drop_last() =~= classes.take(i as int));
        assert(class == classes[i as int]);
        worst = match class {
            None => worst,
            Some(c) => match worst {
                None => Some(c),
                Some(w) => if c.rank_of() < w.rank_of() {
                    Some(c)
                } else {
                    Some(w)
                },
            },
        };
        i = i + 1;
    }
    assert(classes.take(i as int) =~= classes);
    match worst {
        Some(c) => Ok(c),
        None => Err(ControlError::NoOperationalAirQualitySensors),
    }
}

/// Whether any presence sensor sees the zone occupied, among those that have
/// a reading.
pub fn get_any_presence(presence_sensors: &[PresenceSensor]) -> (r: Result<bool, ControlError>)
    ensures
        r == any_presence(presence_sensors@),
        r is Err <==> forall|i: int|
            0 <= i < presence_sensors@.len() ==> (#[trigger] presence_sensors@[i]).reading is None,
        r matches Ok(b) ==> (b <==> exists|i: int|
            0 <= i < presence_sensors@.len() && (#[trigger] presence_sensors@[i]).reading is Some
                && presence_sensors@[i].reading.unwrap().value == Presence::Occupied),
{
    proof {
        zone_presence_comes_from_the_readings(presence_sensors@);
    }
    let ghost s = presence_sensors@;
    let mut seen = false;
    let mut occupied = false;
    let mut i: usize = 0;
    while i < presence_sensors.len()
        invariant
            i <= s.len(),
            s == presence_sensors@,
            seen == (exists|j: int| 0 <= j < i && (#[trigger] s[j]).reading is Some),
            occupied == (exists|j: int| 0 <= j < i && #[trigger] reads_occupied(s[j])),
        decreases s.len() - i,
    {
        let (has_reading, is_occupied) = match &presence_sensors[i].reading {
            Some(r) => (true, r.value == Presence::Occupied),
            None => (false, false),
        };
        assert(is_occupied == reads_occupied(s[i as int]));
        seen = seen || has_reading;
        occupied = occupied || is_occupied;
        i = i + 1;
    }
    if !seen {
        Err(ControlError::NoOperationalPresenceSensors)
    } else {
        Ok(occupied)
    }
}

/// The command for an occupied zone with air of class `cleanliness`.
pub fn get_fan_command_for_occupied_air_quality(cleanliness: AirCleanliness) -> (cmd:
    ExternalCommand)
    ensures
        cmd == occupied_command(cleanliness),
{
    ExternalCommand {
        fan: Some(
            match cleanliness {
                AirCleanliness::Clean => ExternalFanCommand::Stop,
                _ => ExternalFanCommand::RunFor { seconds: RUN_SECONDS },
            },
        ),
        speed: match cleanliness {
            AirCleanliness::VeryDirty => Some(FanSpeed::High),
            AirCleanliness::Dirty => Some(FanSpeed::Medium),
            AirCleanliness::PreDirty => Some(FanSpeed::Low),
            AirCleanliness::Clean => None,
        },
    }
}

/// The command for a zone whose air is not known: run while occupied.
pub fn get_fan_command_for_presence_in_unknown_air_quality(occupied: bool) -> (cmd:
    ExternalCommand)
    ensures
        cmd == presence_command(occupied),
{
    let fan = if occupied {
        ExternalFanCommand::RunFor { seconds: RUN_SECONDS }
    } else {
        ExternalFanCommand::Stop
    };
    ExternalCommand { fan: Some(fan), speed: None }
}

/// Decides the command for a zone in `mode` from the current readings of its
/// sensors.
pub fn stateless_process<V>(
    mode: ControlMode,
    presence_sensors: &[PresenceSensor],
    air_quality_sensors: &[AirQualitySensor<V>],
) -> (r: Result<ExternalCommand, ControlError>)
    ensures
        r == decide(
            mode,
            worst_air_cleanliness(air_quality_sensors@),
            any_presence(presence_sensors@),
        ),
{
    match mode {
        ControlMode::PresenceAndAirQuality => {
            let cleanliness = match get_worst_air_cleanliness(air_quality_sensors) {
                Ok(v) => v,
                Err(_) => {
                    let presence = get_any_presence(presence_sensors)?;
                    return Ok(get_fan_command_for_presence_in_unknown_air_quality(presence));
                },
            };
            let presence = match get_any_presence(presence_sensors) {
                Ok(v) => v,
                Err(_) => {
                    return Ok(get_fan_command_for_occupied_air_quality(cleanliness));
                },
            };
            if presence {
                Ok(get_fan_command_for_occupied_air_quality(cleanliness))
            } else if cleanliness.rank_of() >= UNOCCUPIED_RUN_THRESHOLD.rank_of() {
                Ok(
                    ExternalCommand {
                        fan: Some(ExternalFanCommand::RunFor { seconds: RUN_SECONDS }),
                        speed: Some(FanSpeed::Low),
                    },
                )
            } else {
                Ok(ExternalCommand { fan: Some(ExternalFanCommand::Stop), speed: None })
            }
        },
        ControlMode::AirQualityOnly => {
            let cleanliness = get_worst_air_cleanliness(air_quality_sensors)?;
            Ok(get_fan_command_for_occupied_air_quality(cleanliness))
        },
        ControlMode::PresenceOnly => {
            let presence = get_any_presence(presence_sensors)?;
            Ok(get_fan_command_for_presence_in_unknown_air_quality(presence))
        },
    }
}

/// The mode of a zone from which sensors it has; a zone has at least one.
pub fn zone_mode<V>(
    presence_sensors: &[PresenceSensor],
    air_quality_sensors: &[AirQualitySensor<V>],
) -> (mode: ControlMode)
    requires
        presence_sensors@.len() > 0 || air_quality_sensors@.len() > 0,
    ensures
        mode == mode_for(presence_sensors@.len() > 0, air_quality_sensors@.len() > 0),
{
    let have_presence = presence_sensors.len() != 0;
    let have_air_quality = air_quality_sensors.len() != 0;
    if have_presence && have_air_quality {
        ControlMode::PresenceAndAirQuality
    } else if have_presence {
        ControlMode::PresenceOnly
    } else {
        ControlMode::AirQualityOnly
    }
}

/// How hard a command drives the fan: 0 when it stops it, otherwise 1, 2 or
/// 3 for the low, medium or high speed (1 when it names no speed).
pub open spec fn effort(cmd: ExternalCommand) -> nat {
    match cmd.fan {
        Some(ExternalFanCommand::RunFor { .. }) => match cmd.speed {
            Some(FanSpeed::High) => 3,
            Some(FanSpeed::Medium) => 2,
            _ => 1,
        },
        _ => 0,
    }
}

/// The worst class is the dirtiest reported one: there is none exactly when
/// no class is present, and otherwise it is one of the classes present and
/// no class present is dirtier.
pub proof fn worst_is_the_dirtiest_reading(classes: Seq<Option<AirCleanliness>>)
    ensures
        worst_of(classes) is None <==> forall|i: int|
            0 <= i < classes.len() ==> (#[trigger] classes[i]) is None,
        worst_of(classes) matches Some(c) ==> (exists|i: int|
            0 <= i < classes.len() && #[trigger] classes[i] == Some(c)),
        worst_of(classes) matches Some(c) ==> forall|i: int|
            0 <= i < classes.len() && (#[trigger] classes[i]) is Some ==> c.rank()
                <= classes[i].unwrap().rank(),
    decreases classes.len(),
{
    if classes.len() > 0 {
        let rest = classes.drop_last();
        worst_is_the_dirtiest_reading(rest);
        let n = classes.len() - 1;
        assert forall|i: int| 0 <= i < n implies #[trigger] classes[i] == rest[i] by {}
        if worst_of(rest) is Some {
            let j = choose|j: int| 0 <= j < rest.len() && #[trigger] rest[j] == worst_of(rest);
            assert(classes[j] == rest[j]);
        }
        if worst_of(classes) is None {
            assert forall|i: int| 0 <= i < classes.len() implies (#[trigger] classes[i]) is None by {
                if i < n {
                    assert(rest[i] == classes[i]);
                }
            }
        }
    }
}

/// Every command decided names the fan; the fan only ever runs for
/// `RUN_SECONDS`; and a command that names a speed runs the fan.
pub proof fn decided_commands_name_the_fan(
    mode: ControlMode,
    cleanliness: Result<AirCleanliness, ControlError>,
    presence: Result<bool, ControlError>,
)
    ensures
        decide(mode, cleanliness, presence) matches Ok(cmd) ==> {
            &&& cmd.fan is Some
            &&& cmd.fan matches Some(ExternalFanCommand::RunFor { seconds }) ==> seconds
                == RUN_SECONDS
            &&& cmd.speed is Some ==> cmd.fan == Some(
                ExternalFanCommand::RunFor { seconds: RUN_SECONDS },
            )
        },
{
}

/// A decision fails only when a reading it needs is missing: with both kinds
/// of sensor, only when both fail (with the presence error); otherwise only
/// when the one kind it rests on fails (with that kind's error).
pub proof fn decisions_fail_only_without_readings(
    mode: ControlMode,
    cleanliness: Result<AirCleanliness, ControlError>,
    presence: Result<bool, ControlError>,
)
    ensures
        decide(mode, cleanliness, presence) is Err <==> match mode {
            ControlMode::PresenceAndAirQuality => cleanliness is Err && presence is Err,
            ControlMode::AirQualityOnly => cleanliness is Err,
            ControlMode::PresenceOnly => presence is Err,
        },
        decide(mode, cleanliness, presence) matches Err(e) ==> match mode {
            ControlMode::AirQualityOnly => Err::<AirCleanliness, ControlError>(e) == cleanliness,
            _ => Err::<bool, ControlError>(e) == presence,
        },
{
}

/// With both kinds of sensor, the decision falls back on the other kind when
/// one fails: without air quality it is the presence-only decision; without
/// presence, or in an occupied zone, it is the air-quality-only decision.
pub proof fn zone_with_both_sensors_falls_back(
    cleanliness: Result<AirCleanliness, ControlError>,
    presence: Result<bool, ControlError>,
)
    ensures
        cleanliness is Err ==> decide(ControlMode::PresenceAndAirQuality, cleanliness, presence)
            == decide(ControlMode::PresenceOnly, cleanliness, presence),
        cleanliness is Ok && (presence is Err || presence == Ok::<bool, ControlError>(true))
            ==> decide(ControlMode::PresenceAndAirQuality, cleanliness, presence) == decide(
            ControlMode::AirQualityOnly,
            cleanliness,
            presence,
        ),
{
}

/// In an occupied zone, dirtier air never drives the fan less hard.
pub proof fn dirtier_air_drives_the_fan_harder(cleaner: AirCleanliness, dirtier: AirCleanliness)
    requires
        dirtier.rank() <= cleaner.rank(),
    ensures
        effort(occupied_command(cleaner)) <= effort(occupied_command(dirtier)),
{
}

/// `UNOCCUPIED_RUN_THRESHOLD` is the lowest class in the order of
/// `AirCleanliness`, so every class is at or above it: an unoccupied zone
/// whose air is known runs its fan at low speed, whatever the air.
pub proof fn unoccupied_zone_runs_at_low_speed(c: AirCleanliness)
    ensures
        unoccupied_command(c) == (ExternalCommand {
            fan: Some(ExternalFanCommand::RunFor { seconds: RUN_SECONDS }),
            speed: Some(FanSpeed::Low),
        }),
{
}

/// A zone decides on the dirtiest class that any of its air-quality sensors
/// reports: there is an error, the missing-sensor one, exactly when no sensor
/// has a classified reading; otherwise the class is one that some sensor
/// reports, and no sensor reports a dirtier one.
pub proof fn zone_decides_on_the_dirtiest_reading<V>(sensors: Seq<AirQualitySensor<V>>)
    ensures
        worst_air_cleanliness(sensors) is Err <==> forall|i: int|
            0 <= i < sensors.len() ==> (#[trigger] sensors[i].current_class()) is None,
        worst_air_cleanliness(sensors) is Err ==> worst_air_cleanliness(sensors) == Err::<
            AirCleanliness,
            ControlError,
        >(ControlError::NoOperationalAirQualitySensors),
        worst_air_cleanliness(sensors) matches Ok(c) ==> (exists|i: int|
            0 <= i < sensors.len() && #[trigger] sensors[i].current_class() == Some(c)),
        worst_air_cleanliness(sensors) matches Ok(c) ==> (forall|i: int|
            0 <= i < sensors.len() && (#[trigger] sensors[i].current_class()) is Some ==> c.rank()
                <= sensors[i].current_class().unwrap().rank()),
{
    let classes = air_classes(sensors);
    worst_is_the_dirtiest_reading(classes);
    assert forall|i: int| 0 <= i < sensors.len() implies #[trigger] classes[i]
        == sensors[i].current_class() by {}
    if worst_air_cleanliness(sensors) is Err {
        assert forall|i: int| 0 <= i < sensors.len() implies (
        #[trigger] sensors[i].current_class()) is None by {
            assert(classes[i] == sensors[i].current_class());
        }
    } else {
        let c = worst_of(classes).unwrap();
        let j = choose|j: int| 0 <= j < classes.len() && #[trigger] classes[j] == Some(c);
        assert(sensors[j].current_class() == Some(c));
        assert forall|i: int|
            0 <= i < sensors.len() && (#[trigger] sensors[i].current_class()) is Some implies c.rank()
            <= sensors[i].current_class().unwrap().rank() by {
            assert(classes[i] == sensors[i].current_class());
        }
    }
    if forall|i: int| 0 <= i < sensors.len() ==> (#[trigger] sensors[i].current_class()) is None {
        assert forall|i: int| 0 <= i < classes.len() implies (#[trigger] classes[i]) is None by {
            assert(classes[i] == sensors[i].current_class());
        }
    }
}

/// A zone's presence comes from the readings of its presence sensors: there
/// is an error, the missing-sensor one, exactly when no sensor has a reading;
/// otherwise the zone is occupied exactly when some sensor reads `Occupied`.
pub proof fn zone_presence_comes_from_the_readings(sensors: Seq<PresenceSensor>)
    ensures
        any_presence(sensors) is Err <==> forall|i: int|
            0 <= i < sensors.len() ==> (#[trigger] sensors[i]).reading is None,
        any_presence(sensors) is Err ==> any_presence(sensors) == Err::<bool, ControlError>(
            ControlError::NoOperationalPresenceSensors,
        ),
        any_presence(sensors) matches Ok(b) ==> (b <==> exists|i: int|
            0 <= i < sensors.len() && (#[trigger] sensors[i]).reading is Some
                && sensors[i].reading.unwrap().value == Presence::Occupied),
{
    if exists|i: int|
        0 <= i < sensors.len() && (#[trigger] sensors[i]).reading is Some
            && sensors[i].reading.unwrap().value == Presence::Occupied {
        let i = choose|i: int|
            0 <= i < sensors.len() && (#[trigger] sensors[i]).reading is Some
                && sensors[i].reading.unwrap().value == Presence::Occupied;
        assert(reads_occupied(sensors[i]));
    }
    if any_occupied(sensors) {
        let i = choose|i: int| 0 <= i < sensors.len() && #[trigger] reads_occupied(sensors[i]);
        assert(sensors[i].reading is Some);
    }
}

} // verus!
