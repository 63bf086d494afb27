//! Wall-clock time: the clock's reading, and the weekday and time of day it
//! falls on in the gateway's region.
//!
//! The region is fixed: `Brazil/East`. Turning an instant into regional time
//! is done by `chrono` and `chrono_tz`; everything built on the result is
//! decided in this crate.

use vstd::prelude::*;

verus! {

/// A time of day: whole seconds since midnight, and nanoseconds within the
/// second. During a leap second `frac` runs on past one billion.
#[derive(Debug, Clone, Copy, PartialEq, Eq, Structural)]
pub struct TimeOfDay {
    pub secs: u32,
    pub frac: u32,
}

/// Seconds in a day.
pub const DAY_SECONDS: u32 = 86400;

/// The bound on [`TimeOfDay::frac`].
pub const FRAC_LIMIT: u32 = 2_000_000_000;

impl TimeOfDay {
    /// A time that exists on the clock face.
    pub open spec fn wf(self) -> bool {
        self.secs < DAY_SECONDS && self.frac < FRAC_LIMIT
    }

    /// `self` is no later than `other`.
    pub open spec fn le(self, other: TimeOfDay) -> bool {
        self.secs < other.secs || (self.secs == other.secs && self.frac <= other.frac)
    }

    /// The time `hour:min:sec` sharp, where that is a time of day.
    pub open spec fn hms(hour: int, min: int, sec: int) -> Option<TimeOfDay> {
        if 0 <= hour < 24 && 0 <= min < 60 && 0 <= sec < 60 {
            Some(TimeOfDay { secs: (hour * 3600 + min * 60 + sec) as u32, frac: 0 })
        } else {
            None
        }
    }

    /// The time `hour:min:sec` sharp; `None` unless `hour < 24`, `min < 60`
    /// and `sec < 60`.
    pub fn from_hms(hour: u32, min: u32, sec: u32) -> (r: Option<TimeOfDay>)
        ensures
            r == Self::hms(hour as int, min as int, sec as int),
            r matches Some(t) ==> t.wf(),
    {
        if hour < 24 && min < 60 && sec < 60 {
            Some(TimeOfDay { secs: hour * 3600 + min * 60 + sec, frac: 0 })
        } else {
            None
        }
    }

    /// Whether `self` is no later than `other`.
    pub fn at_or_before(&self, other: &TimeOfDay) -> (r: bool)
        ensures
            r == self.le(*other),
    {
        self.secs < other.secs || (self.secs == other.secs && self.frac <= other.frac)
    }

    /// Whether this time exists on the clock face.
    pub fn is_valid(&self) -> (r: bool)
        ensures
            r == self.wf(),
    {
        self.secs < DAY_SECONDS && self.frac < FRAC_LIMIT
    }
}

/// `le` orders the times of day: it is reflexive, transitive, antisymmetric
/// and total.
pub proof fn lemma_time_order(a: TimeOfDay, b: TimeOfDay, c: TimeOfDay)
    ensures
        a.le(a),
        a.le(b) && b.le(c) ==> a.le(c),
        a.le(b) && b.le(a) ==> a == b,
        a.le(b) || b.le(a),
{
}

/// A point of the week: the weekday, counted from Sunday = 1 to
/// Saturday = 7, and the time of day.
#[derive(Debug, Clone, Copy, PartialEq, Eq, Structural)]
pub struct Moment {
    pub weekday: u32,
    pub time: TimeOfDay,
}

impl Moment {
    pub open spec fn wf(self) -> bool {
        1 <= self.weekday <= 7 && self.time.wf()
    }
}

/// The weekday (from Sunday = 1), the seconds since midnight and the
/// nanoseconds that `chrono` gives, in the zone `Brazil/East`, for the
/// instant `secs` seconds and `nanos` nanoseconds after the Unix epoch;
/// `None` where `chrono` cannot represent that instant.
pub uninterp spec fn regional_moment(secs: int, nanos: int) -> Option<(int, int, int)>;

/// A [`Moment`] as the triple [`regional_moment`] speaks of.
pub open spec fn moment_triple(m: Moment) -> (int, int, int) {
    (m.weekday as int, m.time.secs as int, m.time.frac as int)
}

/// Calls `chrono::DateTime::from_timestamp`, moves the result to
/// `chrono_tz::Brazil::East` with `with_timezone`, and reads
/// `weekday().number_from_sunday()`, `time().num_seconds_from_midnight()` and
/// `time().nanosecond()` off it.
///
/// Trusted: the outcome is [`regional_moment`] of the arguments; the weekday
/// number lies in 1..=7, the seconds are below 86400 and the nanoseconds
/// below two billion, as `chrono` documents of each.
#[verifier::external_body]
pub(crate) fn moment_in_region(secs: i64, nanos: u32) -> (r: Option<Moment>)
    ensures
        match r {
            Some(m) => regional_moment(secs as int, nanos as int) == Some(moment_triple(m))
                && m.wf(),
            None => regional_moment(secs as int, nanos as int) is None,
        },
{
    let utc = chrono::DateTime::from_timestamp(secs, nanos)?;
    let local = utc.with_timezone(&chrono_tz::Brazil::East);
    let time = local.time();
    Some(
        Moment {
            weekday: chrono::Datelike::weekday(&local).number_from_sunday(),
            time: TimeOfDay {
                secs: chrono::Timelike::num_seconds_from_midnight(&time),
                frac: chrono::Timelike::nanosecond(&time),
            },
        },
    )
}

/// The system clock's reading as whole seconds and nanoseconds since the
/// Unix epoch; `None` where the clock stands before the epoch. Calls
/// `SystemTime::duration_since`.
///
/// Trusted: nothing is claimed of the reading.
#[verifier::external_body]
pub(crate) fn system_time() -> (r: Option<(u64, u32)>) {
    match std::time::SystemTime::now().duration_since(std::time::SystemTime::UNIX_EPOCH) {
        Ok(elapsed) => Some((elapsed.as_secs(), elapsed.subsec_nanos())),
        Err(_) => None,
    }
}

/// The point of the week, in the gateway's region, that the clock reading
/// `(secs, nanos)` falls on.
pub open spec fn moment_of_reading(secs: int, nanos: int) -> Option<(int, int, int)> {
    if secs <= i64::MAX {
        regional_moment(secs, nanos)
    } else {
        None
    }
}

/// The point of the week, in the gateway's region, of the instant `secs`
/// seconds and `nanos` nanoseconds after the Unix epoch; `None` where the
/// instant is out of range.
pub fn regional_moment_at(secs: u64, nanos: u32) -> (r: Option<Moment>)
    ensures
        match r {
            Some(m) => moment_of_reading(secs as int, nanos as int) == Some(moment_triple(m))
                && m.wf(),
            None => moment_of_reading(secs as int, nanos as int) is None,
        },
{
    if secs > 9223372036854775807 {
        None
    } else {
        moment_in_region(secs as i64, nanos)
    }
}

} // verus!
