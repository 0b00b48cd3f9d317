use crate::control_logic::{any_occupied, any_presence, any_reading, reads_occupied, ControlError};
use crate::presence::{
    ASCII_N, ASCII_O, Presence, PresenceSensor, lapsed, lapses, presence_after_message,
    presence_message_result,
};
use crate::air_quality::{AirQualitySensor, air_after_message, air_message_result};
use crate::sensor::{AirCleanliness, MqttMessage, SensorError, Update};
use vstd::prelude::*;

verus! {

/// Some sensor takes `msg` as a fresh reading.
pub open spec fn some_sensor_updated_by(sensors: Seq<PresenceSensor>, msg: MqttMessage) -> bool {
    exists|i: int|
        0 <= i < sensors.len() && presence_message_result(#[trigger] sensors[i], msg) == Ok::<
            Update,
            SensorError,
        >(Update::Updated)
}

/// `Updated` if `before` is, or if `any` holds; `NotUpdated` otherwise.
pub open spec fn combined(before: Update, any: bool) -> Update {
    if before == Update::Updated || any {
        Update::Updated
    } else {
        Update::NotUpdated
    }
}

/// The positions, in order, among the first `n` presence sensors, of those
/// that refuse `msg`.
pub open spec fn presence_refusals(sensors: Seq<PresenceSensor>, msg: MqttMessage, n: nat) -> Seq<
    int,
>
    decreases n,
{
    if n == 0 {
        seq![]
    } else {
        let rest = presence_refusals(sensors, msg, (n - 1) as nat);
        if presence_message_result(sensors[n - 1], msg) is Err {
            rest.push(n - 1)
        } else {
            rest
        }
    }
}

/// The positions as mathematical integers.
pub open spec fn positions(v: Seq<usize>) -> Seq<int> {
    v.map_values(|j: usize| j as int)
}

/// Hands `msg` to every sensor; `res` becomes `Updated` when one of them took
/// it as a fresh reading. A sensor that refuses the message is left as it
/// was; the positions of those that refused are returned, in order.
pub fn update_via_mqtt_message_helper(
    res: &mut Update,
    msg: &MqttMessage,
    sensors: &mut Vec<PresenceSensor>,
) -> (refused: Vec<usize>)
    ensures
        final(sensors)@.len() == old(sensors)@.len(),
        forall|i: int|
            0 <= i < old(sensors)@.len() ==> presence_after_message(
                #[trigger] old(sensors)@[i],
                final(sensors)@[i],
                *msg,
            ),
        *final(res) == combined(*old(res), some_sensor_updated_by(old(sensors)@, *msg)),
        *final(res) == Update::Updated <==> (*old(res) == Update::Updated
            || some_sensor_updated_by(old(sensors)@, *msg)),
        positions(refused@) == presence_refusals(old(sensors)@, *msg, old(sensors)@.len()),
{
    let ghost before = sensors@;
    let ghost res0 = *res;
    let mut refused: Vec<usize> = Vec::new();
    let mut i: usize = 0;
    while i < sensors.len()
        invariant
            i <= sensors@.len(),
            sensors@.len() == before.len(),
            forall|j: int|
                0 <= j < i ==> presence_after_message(#[trigger] before[j], sensors@[j], *msg),
            forall|j: int| i <= j < sensors@.len() ==> #[trigger] sensors@[j] == before[j],
            *res == combined(res0, some_sensor_updated_by(before.take(i as int), *msg)),
            positions(refused@) == presence_refusals(before, *msg, i as nat),
        decreases sensors@.len() - i,
    {
        let ghost refused_before = refused@;
        let outcome = sensors[i].update_via_mqtt_message(msg);
        match outcome {
            Ok(Update::Updated) => {
                *res = Update::Updated;
            },
            Ok(Update::NotUpdated) => {},
            Err(_) => {
                refused.push(i);
            },
        }
        proof {
            let prev = before.take(i as int);
            let next = before.take(i + 1);
            assert(next =~= prev.push(before[i as int]));
            assert(outcome == presence_message_result(before[i as int], *msg));
            if outcome is Err {
                assert(positions(refused@) =~= positions(refused_before).push(i as int));
            }
            if some_sensor_updated_by(next, *msg) {
                let j = choose|j: int|
                    0 <= j < next.len() && presence_message_result(#[trigger] next[j], *msg)
                        == Ok::<Update, SensorError>(Update::Updated);
                if j < i {
                    assert(prev[j] == next[j]);
                }
            }
            if outcome == Ok::<Update, SensorError>(Update::Updated) {
                assert(next[i as int] == before[i as int]);
            }
            if some_sensor_updated_by(prev, *msg) {
                let j = choose|j: int|
                    0 <= j < prev.len() && presence_message_result(#[trigger] prev[j], *msg)
                        == Ok::<Update, SensorError>(Update::Updated);
                assert(prev[j] == next[j]);
            }
        }
        i = i + 1;
    }
    assert(before.take(i as int) =~= before);
    refused
}

/// Some air-quality sensor takes `msg` as a fresh reading, sensor `i` reading
/// its payload as `parsed[i]`.
pub open spec fn some_air_sensor_updated_by<V>(
    sensors: Seq<AirQualitySensor<V>>,
    msg: MqttMessage,
    parsed: Seq<Option<(V, AirCleanliness)>>,
) -> bool {
    exists|i: int|
        0 <= i < sensors.len() && air_message_result(#[trigger] sensors[i], msg, parsed[i])
            == Ok::<Update, SensorError>(Update::Updated)
}

/// The positions, in order, among the first `n` air-quality sensors, of those
/// that refuse `msg`, sensor `i` reading its payload as `parsed[i]`.
pub open spec fn air_refusals<V>(
    sensors: Seq<AirQualitySensor<V>>,
    msg: MqttMessage,
    parsed: Seq<Option<(V, AirCleanliness)>>,
    n: nat,
) -> Seq<int>
    decreases n,
{
    if n == 0 {
        seq![]
    } else {
        let rest = air_refusals(sensors, msg, parsed, (n - 1) as nat);
        if air_message_result(sensors[n - 1], msg, parsed[n - 1]) is Err {
            rest.push(n - 1)
        } else {
            rest
        }
    }
}

/// Hands `msg` to every air-quality sensor, sensor `i` reading its payload
/// as `parsed[i]` (its value and class against that sensor's thresholds, or
/// `None` when it is not a number); `res` becomes `Updated` when one of them
/// took it as a fresh reading. A sensor that refuses the message is left as
/// it was; the positions of those that refused are returned, in order.
pub fn update_air_quality_via_mqtt_message_helper<V: Copy>(
    res: &mut Update,
    msg: &MqttMessage,
    sensors: &mut Vec<AirQualitySensor<V>>,
    parsed: &Vec<Option<(V, AirCleanliness)>>,
) -> (refused: Vec<usize>)
    requires
        parsed@.len() == old(sensors)@.len(),
    ensures
        final(sensors)@.len() == old(sensors)@.len(),
        forall|i: int|
            0 <= i < old(sensors)@.len() ==> air_after_message(
                #[trigger] old(sensors)@[i],
                final(sensors)@[i],
                *msg,
                parsed@[i],
            ),
        *final(res) == combined(
            *old(res),
            some_air_sensor_updated_by(old(sensors)@, *msg, parsed@),
        ),
        *final(res) == Update::Updated <==> (*old(res) == Update::Updated
            || some_air_sensor_updated_by(old(sensors)@, *msg, parsed@)),
        positions(refused@) == air_refusals(old(sensors)@, *msg, parsed@, old(sensors)@.len()),
{
    let ghost before = sensors@;
    let ghost res0 = *res;
    let mut refused: Vec<usize> = Vec::new();
    let mut i: usize = 0;
    while i < sensors.len()
        invariant
            i <= sensors@.len(),
            sensors@.len() == before.len(),
            parsed@.len() == before.len(),
            forall|j: int|
                0 <= j < i ==> air_after_message(#[trigger] before[j], sensors@[j], *msg, parsed@[j]),
            forall|j: int| i <= j < sensors@.len() ==> #[trigger] sensors@[j] == before[j],
            *res == combined(
                res0,
                some_air_sensor_updated_by(before.take(i as int), *msg, parsed@.take(i as int)),
            ),
            positions(refused@) == air_refusals(before, *msg, parsed@, i as nat),
        decreases sensors@.len() - i,
    {
        let ghost refused_before = refused@;
        let outcome = sensors[i].update_via_mqtt_message(msg, parsed[i]);
        match outcome {
            Ok(Update::Updated) => {
                *res = Update::Updated;
            },
            Ok(Update::NotUpdated) => {},
            Err(_) => {
                refused.push(i);
            },
        }
        proof {
            let prev = before.take(i as int);
            let next = before.take(i + 1);
            let pprev = parsed@.take(i as int);
            let pnext = parsed@.take(i + 1);
            assert(next =~= prev.push(before[i as int]));
            assert(pnext =~= pprev.push(parsed@[i as int]));
            assert(outcome == air_message_result(before[i as int], *msg, parsed@[i as int]));
            if outcome is Err {
                assert(positions(refused@) =~= positions(refused_before).push(i as int));
            }
            if some_air_sensor_updated_by(next, *msg, pnext) {
                let j = choose|j: int|
                    0 <= j < next.len() && air_message_result(#[trigger] next[j], *msg, pnext[j])
                        == Ok::<Update, SensorError>(Update::Updated);
                if j < i {
                    assert(prev[j] == next[j]);
                    assert(pprev[j] == pnext[j]);
                }
            }
            if outcome == Ok::<Update, SensorError>(Update::Updated) {
                assert(next[i as int] == before[i as int]);
                assert(pnext[i as int] == parsed@[i as int]);
            }
            if some_air_sensor_updated_by(prev, *msg, pprev) {
                let j = choose|j: int|
                    0 <= j < prev.len() && air_message_result(#[trigger] prev[j], *msg, pprev[j])
                        == Ok::<Update, SensorError>(Update::Updated);
                assert(prev[j] == next[j]);
                assert(pprev[j] == pnext[j]);
            }
        }
        i = i + 1;
    }
    assert(before.take(i as int) =~= before);
    assert(parsed@.take(i as int) =~= parsed@);
    refused
}

/// Lets time pass for every air-quality sensor: their readings do not lapse,
/// so nothing changes.
pub fn update_air_quality_via_time_helper<V>(res: &mut Update, sensors: &mut Vec<AirQualitySensor<V>>)
    ensures
        final(sensors)@ == old(sensors)@,
        *final(res) == *old(res),
{
    let ghost before = sensors@;
    let ghost res0 = *res;
    let mut i: usize = 0;
    while i < sensors.len()
        invariant
            i <= sensors@.len(),
            sensors@ == before,
            *res == res0,
        decreases sensors@.len() - i,
    {
        let outcome = sensors[i].update_via_time();
        match outcome {
            Ok(Update::Updated) => {
                *res = Update::Updated;
            },
            _ => {},
        }
        i = i + 1;
    }
    assert(sensors@ =~= before);
}

/// `new` is `old` after time passed: the same, or with its occupied reading
/// lapsed to unoccupied, which it may only be when some age makes it lapse.
pub open spec fn presence_after_time(old: PresenceSensor, new: PresenceSensor) -> bool {
    &&& new.config == old.config
    &&& new.reading == old.reading || (exists|age_secs: u64| #[trigger] lapses(old, age_secs))
        && new.reading == Some(lapsed(old.reading.unwrap()))
}

/// Some sensor's reading differs between `before` and `after`.
pub open spec fn some_reading_changed(before: Seq<PresenceSensor>, after: Seq<PresenceSensor>) -> bool {
    exists|i: int| 0 <= i < before.len() && (#[trigger] before[i]).reading != after[i].reading
}

/// Lets time pass for every sensor; `res` becomes `Updated` when one of them
/// changed its reading. Which sensors lapse is read from the clock, so any
/// of them may or may not.
pub fn update_via_time_helper(res: &mut Update, sensors: &mut Vec<PresenceSensor>)
    ensures
        final(sensors)@.len() == old(sensors)@.len(),
        forall|i: int|
            0 <= i < old(sensors)@.len() ==> presence_after_time(
                #[trigger] old(sensors)@[i],
                final(sensors)@[i],
            ),
        *final(res) == combined(*old(res), some_reading_changed(old(sensors)@, final(sensors)@)),
        *final(res) == Update::Updated <==> (*old(res) == Update::Updated || some_reading_changed(
            old(sensors)@,
            final(sensors)@,
        )),
{
    let ghost before = sensors@;
    let ghost res0 = *res;
    let mut i: usize = 0;
    while i < sensors.len()
        invariant
            i <= sensors@.len(),
            sensors@.len() == before.len(),
            forall|j: int| 0 <= j < i ==> presence_after_time(#[trigger] before[j], sensors@[j]),
            forall|j: int| i <= j < sensors@.len() ==> #[trigger] sensors@[j] == before[j],
            *res == combined(
                res0,
                some_reading_changed(before.take(i as int), sensors@.take(i as int)),
            ),
        decreases sensors@.len() - i,
    {
        let ghost prev_sensors = sensors@;
        let outcome = sensors[i].update_via_time();
        match outcome {
            Ok(Update::Updated) => {
                *res = Update::Updated;
            },
            _ => {},
        }
        proof {
            let b = before.take(i + 1);
            let a = sensors@.take(i + 1);
            assert(b =~= before.take(i as int).push(before[i as int]));
            assert(a =~= prev_sensors.take(i as int).push(sensors@[i as int]));
            assert(prev_sensors.take(i as int) =~= sensors@.take(i as int));
            if outcome == Ok::<Update, SensorError>(Update::Updated) {
                assert(sensors@[i as int].reading != before[i as int].reading);
                assert(b[i as int].reading != a[i as int].reading);
            }
            if some_reading_changed(b, a) {
                let j = choose|j: int| 0 <= j < b.len() && (#[trigger] b[j]).reading != a[j].reading;
                if j < i {
                    assert(before.take(i as int)[j] == b[j]);
                    assert(sensors@.take(i as int)[j] == a[j]);
                }
            }
            if some_reading_changed(before.take(i as int), sensors@.take(i as int)) {
                let j = choose|j: int|
                    0 <= j < i && (#[trigger] before.take(i as int)[j]).reading != sensors@.take(
                        i as int,
                    )[j].reading;
                assert(before.take(i as int)[j] == b[j]);
            }
        }
        i = i + 1;
    }
    assert(before.take(i as int) =~= before);
    assert(sensors@.take(i as int) =~= sensors@);
}

/// A message that no sensor listens to changes no presence decision: after
/// the sensors handled it, they report the same presence as before.
pub proof fn unheard_messages_change_no_presence(
    before: Seq<PresenceSensor>,
    after: Seq<PresenceSensor>,
    msg: MqttMessage,
)
    requires
        after.len() == before.len(),
        forall|i: int|
            0 <= i < before.len() ==> presence_after_message(#[trigger] before[i], after[i], msg),
        forall|i: int| 0 <= i < before.len() ==> (#[trigger] before[i]).config.topic@ != msg.topic@,
    ensures
        any_presence(after) == any_presence(before),
{
    assert forall|i: int| 0 <= i < before.len() implies #[trigger] after[i].reading
        == before[i].reading by {
        assert(presence_after_message(before[i], after[i], msg));
    }
    if any_reading(before) {
        let i = choose|i: int| 0 <= i < before.len() && (#[trigger] before[i]).reading is Some;
        assert(after[i].reading == before[i].reading);
    }
    if any_reading(after) {
        let i = choose|i: int| 0 <= i < after.len() && (#[trigger] after[i]).reading is Some;
        assert(after[i].reading == before[i].reading);
    }
    if any_occupied(before) {
        let i = choose|i: int| 0 <= i < before.len() && #[trigger] reads_occupied(before[i]);
        assert(after[i].reading == before[i].reading);
    }
    if any_occupied(after) {
        let i = choose|i: int| 0 <= i < after.len() && #[trigger] reads_occupied(after[i]);
        assert(after[i].reading == before[i].reading);
    }
}

/// An `on` on the topic of some sensor makes the zone occupied: after the
/// sensors handled it, their presence decision is `Ok(true)`.
pub proof fn on_message_makes_the_zone_occupied(
    before: Seq<PresenceSensor>,
    after: Seq<PresenceSensor>,
    msg: MqttMessage,
    listener: int,
)
    requires
        after.len() == before.len(),
        forall|i: int|
            0 <= i < before.len() ==> presence_after_message(#[trigger] before[i], after[i], msg),
        0 <= listener < before.len(),
        before[listener].config.topic@ == msg.topic@,
        msg.payload@ == seq![ASCII_O, ASCII_N],
    ensures
        any_presence(after) == Ok::<bool, ControlError>(true),
{
    assert(presence_after_message(before[listener], after[listener], msg));
    assert(after[listener].reading.unwrap().value == Presence::Occupied);
    assert(reads_occupied(after[listener]));
    assert(after[listener].reading is Some);
}

/// Handing an update to sensors never clears one reported before: combining
/// keeps `Updated`, and turns `NotUpdated` into `Updated` exactly when some
/// sensor changed.
pub proof fn updates_are_never_cleared(any: bool)
    ensures
        combined(Update::Updated, any) == Update::Updated,
        combined(Update::NotUpdated, any) == Update::Updated <==> any,
{
}

} // verus!
