use std::time::Duration;
use std::time::Instant;
use vstd::prelude::*;

verus! {

#[verifier::external_type_specification]
#[verifier::external_body]
pub struct ExInstant(std::time::Instant);

/// `Clone::clone` on `std::time::Instant`, a `Copy` type: the clone is the
/// same instant.
pub assume_specification[ <Instant as Clone>::clone ](i: &Instant) -> (r: Instant)
    ensures
        r == *i,
;

/// `std::time::Instant::now`. Nothing is claimed of the instant it returns:
/// it depends on the clock.
#[verifier::external_body]
pub(crate) fn instant_now() -> Instant {
    Instant::now()
}

/// `std::time::Instant::elapsed`. Nothing is claimed of the duration it
/// returns: it depends on the clock.
#[verifier::external_body]
fn instant_elapsed(at: &Instant) -> Duration {
    at.elapsed()
}

/// `std::time::Duration::as_secs`. A `Duration` is opaque to the library, so
/// nothing is claimed of the number of whole seconds it returns.
#[verifier::external_body]
fn duration_whole_secs(d: &Duration) -> u64 {
    d.as_secs()
}

/// A value read from a sensor, its classification if the sensor classifies
/// its values, and the instant at which it was taken.
#[derive(Clone, Copy, Debug, PartialEq)]
pub struct SensorReading<V, C> {
    pub value: V,
    pub class: Option<C>,
    pub at: Instant,
}

impl<V, C> SensorReading<V, C> {
    /// A reading of `value` with classification `class`, taken now: at an
    /// instant read from the clock, of which nothing is stated.
    pub fn new(value: V, class: Option<C>) -> (reading: Self)
        ensures
            reading.value == value,
            reading.class == class,
    {
        Self::new_at(value, class, instant_now())
    }

    /// A reading of `value` with classification `class`, taken at `at`.
    pub fn new_at(value: V, class: Option<C>, at: Instant) -> (reading: Self)
        ensures
            reading == (SensorReading { value, class, at }),
    {
        SensorReading { value, class, at }
    }

    /// The time that has passed since the reading was taken. It is read
    /// from the clock, and a `Duration` is opaque to the library, so nothing
    /// is stated of it.
    pub fn age(&self) -> Duration {
        instant_elapsed(&self.at)
    }

    /// The number of whole seconds that have passed since the reading was
    /// taken. It is read from the clock, so nothing is stated of it.
    pub fn age_secs(&self) -> u64 {
        let age = self.age();
        duration_whole_secs(&age)
    }
}

/// Whether a sensor's value changed in an update.
#[derive(Clone, Copy, Debug, PartialEq, Eq, Structural)]
pub enum Update {
    Updated,
    NotUpdated,
}

/// Why a sensor refused a message addressed to it.
#[derive(Clone, Copy, Debug, PartialEq, Eq, Structural)]
pub enum SensorError {
    /// The payload is not a value this sensor reports.
    UnrecognisedPayload,
    /// The payload could not be read as a number.
    UnreadableValue,
}

/// A message received from the broker: the topic it was published on and its
/// payload.
#[derive(Clone, Debug, PartialEq)]
pub struct MqttMessage {
    pub topic: String,
    pub payload: Vec<u8>,
}

/// How clean the air is, from the dirtiest to the cleanest. The derived order
/// follows the declaration: `VeryDirty < Dirty < PreDirty < Clean`.
#[derive(Clone, Copy, Debug, PartialEq, Eq, PartialOrd, Ord, Structural)]
pub enum AirCleanliness {
    VeryDirty,
    Dirty,
    PreDirty,
    Clean,
}

impl AirCleanliness {
    /// The position of the class in the order `VeryDirty < Dirty < PreDirty <
    /// Clean`: the dirtier the air, the lower the rank.
    pub open spec fn rank(self) -> nat {
        match self {
            AirCleanliness::VeryDirty => 0,
            AirCleanliness::Dirty => 1,
            AirCleanliness::PreDirty => 2,
            AirCleanliness::Clean => 3,
        }
    }

    /// The rank of `self`, as `rank` defines it.
    pub fn rank_of(&self) -> (r: u8)
        ensures
            r == self.rank(),
    {
        match self {
            AirCleanliness::VeryDirty => 0,
            AirCleanliness::Dirty => 1,
            AirCleanliness::PreDirty => 2,
            AirCleanliness::Clean => 3,
        }
    }

    /// The class of a value, given whether it reaches each threshold: the
    /// highest threshold reached decides, and a value that reaches none is
    /// clean.
    pub open spec fn classify(
        reaches_very_dirty: bool,
        reaches_dirty: bool,
        reaches_pre_dirty: bool,
    ) -> AirCleanliness {
        if reaches_very_dirty {
            AirCleanliness::VeryDirty
        } else if reaches_dirty {
            AirCleanliness::Dirty
        } else if reaches_pre_dirty {
            AirCleanliness::PreDirty
        } else {
            AirCleanliness::Clean
        }
    }

    /// Classification never calls a value cleaner when it reaches more: if a
    /// larger value reaches every threshold that a smaller one reaches (as
    /// any number does that is not below it), the larger value's class is
    /// at least as dirty.
    pub proof fn classification_is_monotone(
        smaller: (bool, bool, bool),
        larger: (bool, bool, bool),
    )
        requires
            smaller.0 ==> larger.0,
            smaller.1 ==> larger.1,
            smaller.2 ==> larger.2,
        ensures
            Self::classify(larger.0, larger.1, larger.2).rank() <= Self::classify(
                smaller.0,
                smaller.1,
                smaller.2,
            ).rank(),
    {
    }

    /// Classifies a value from the outcome of its comparison with each of the
    /// three thresholds of a sensor (`value >= threshold`).
    pub fn from_threshold_checks(
        reaches_very_dirty: bool,
        reaches_dirty: bool,
        reaches_pre_dirty: bool,
    ) -> (c: AirCleanliness)
        ensures
            c == Self::classify(reaches_very_dirty, reaches_dirty, reaches_pre_dirty),
    {
        if reaches_very_dirty {
            AirCleanliness::VeryDirty
        } else if reaches_dirty {
            AirCleanliness::Dirty
        } else if reaches_pre_dirty {
            AirCleanliness::PreDirty
        } else {
            AirCleanliness::Clean
        }
    }
}

} // verus!
