//! Access windows: on which weekday, and between which times of day, a user
//! may unlock the door.
//!
//! A user has at most one window per weekday. A window runs from `start` to
//! `end` on one calendar day, both ends included; it cannot reach past
//! midnight, so a window whose `start` lies after its `end` is refused when
//! it is written.

use vstd::prelude::*;
use crate::clock::{regional_moment_at, system_time, moment_of_reading, moment_triple, Moment, TimeOfDay};
use crate::utils::error_handlers::MappedErrors;

verus! {

/// One access window of one user.
#[derive(Debug, Clone, Copy, PartialEq, Eq, Structural)]
pub struct UserAccess {
    pub user_id: i32,
    pub day_of_week: i32,
    pub start: TimeOfDay,
    pub end: TimeOfDay,
}

/// A window to be created for a user.
#[derive(Debug, Clone, Copy, PartialEq, Eq, Structural)]
pub struct UserAccessCreate {
    pub day_of_week: i32,
    pub start: TimeOfDay,
    pub end: TimeOfDay,
}

/// New bounds for an existing window.
#[derive(Debug, Clone, Copy, PartialEq, Eq, Structural)]
pub struct UserAccessUpdate {
    pub start: TimeOfDay,
    pub end: TimeOfDay,
}

/// Bounds that make a window: two times of day, the first no later than the
/// second.
pub open spec fn bounds_ok(start: TimeOfDay, end: TimeOfDay) -> bool {
    start.wf() && end.wf() && start.le(end)
}

/// A weekday number: Sunday = 1 to Saturday = 7.
pub open spec fn weekday_ok(day: int) -> bool {
    1 <= day <= 7
}

/// Whether two times of day can bound a window.
pub fn check_bounds(start: &TimeOfDay, end: &TimeOfDay) -> (r: bool)
    ensures
        r == bounds_ok(*start, *end),
{
    start.is_valid() && end.is_valid() && start.at_or_before(end)
}

impl UserAccess {
    /// A window that may be stored.
    pub open spec fn wf(self) -> bool {
        weekday_ok(self.day_of_week as int) && bounds_ok(self.start, self.end)
    }

    /// Whether this window is the given user's on the given weekday and
    /// holds the time `t`, both ends included.
    pub open spec fn covers(self, user_id: int, weekday: int, t: TimeOfDay) -> bool {
        &&& self.user_id == user_id
        &&& self.day_of_week == weekday
        &&& self.start.le(t)
        &&& t.le(self.end)
    }

    /// Whether this window is the given user's on the given weekday.
    pub open spec fn keyed(self, user_id: int, weekday: int) -> bool {
        self.user_id == user_id && self.day_of_week == weekday
    }

    /// Whether this window may be stored.
    pub fn validate(&self) -> (r: bool)
        ensures
            r == self.wf(),
    {
        1 <= self.day_of_week && self.day_of_week <= 7 && check_bounds(&self.start, &self.end)
    }

    /// Whether this window covers the given user at the given moment.
    pub fn covers_moment(&self, user_id: i32, moment: &Moment) -> (r: bool)
        ensures
            r == self.covers(user_id as int, moment.weekday as int, moment.time),
    {
        self.user_id == user_id && self.day_of_week >= 0 && self.day_of_week as u32
            == moment.weekday && self.start.at_or_before(&moment.time) && moment.time.at_or_before(
            &self.end,
        )
    }
}

impl UserAccessCreate {
    pub open spec fn wf(self) -> bool {
        weekday_ok(self.day_of_week as int) && bounds_ok(self.start, self.end)
    }

    /// Whether the weekday lies in 1..=7 and the bounds make a window.
    pub fn validate(&self) -> (r: bool)
        ensures
            r == self.wf(),
    {
        1 <= self.day_of_week && self.day_of_week <= 7 && check_bounds(&self.start, &self.end)
    }
}

impl UserAccessUpdate {
    pub open spec fn wf(self) -> bool {
        bounds_ok(self.start, self.end)
    }

    /// Whether the bounds make a window.
    pub fn validate(&self) -> (r: bool)
        ensures
            r == self.wf(),
    {
        check_bounds(&self.start, &self.end)
    }
}

/// Whether some window among `rows` covers the user at that weekday and time.
pub open spec fn granted(rows: Seq<UserAccess>, user_id: int, weekday: int, t: TimeOfDay) -> bool {
    exists|i: int| 0 <= i < rows.len() && (#[trigger] rows[i]).covers(user_id, weekday, t)
}

/// No two of `rows` are the same user's window on the same weekday.
pub open spec fn one_window_per_day(rows: Seq<UserAccess>) -> bool {
    forall|i: int, j: int|
        0 <= i < rows.len() && 0 <= j < rows.len() && i != j ==> !((#[trigger] rows[i]).keyed(
            rows[j].user_id as int,
            (#[trigger] rows[j]).day_of_week as int,
        ))
}

/// A user without a window on a weekday is denied at every time of that day,
/// whatever windows there are on other days and for other users.
pub proof fn lemma_no_window_denies(rows: Seq<UserAccess>, user_id: int, weekday: int, t: TimeOfDay)
    requires
        forall|i: int| 0 <= i < rows.len() ==> !(#[trigger] rows[i]).keyed(user_id, weekday),
    ensures
        !granted(rows, user_id, weekday, t),
{
}

/// A window covers its user, on its weekday, from `start` to `end` with both
/// ends included, and at no other time, on no other day and for no other
/// user.
pub proof fn lemma_window_is_inclusive(w: UserAccess, user_id: int, weekday: int, t: TimeOfDay)
    requires
        w.wf(),
    ensures
        w.covers(w.user_id as int, w.day_of_week as int, w.start),
        w.covers(w.user_id as int, w.day_of_week as int, w.end),
        w.covers(user_id, weekday, t) <==> w.keyed(user_id, weekday) && w.start.le(t) && t.le(
            w.end,
        ),
        w.covers(user_id, weekday, t) && t.frac == 0 ==> w.start.secs <= t.secs <= w.end.secs,
{
}

/// Where no user has two windows on one weekday, the one window of that user
/// and day decides alone.
pub proof fn lemma_single_window_decides(
    rows: Seq<UserAccess>,
    k: int,
    t: TimeOfDay,
)
    requires
        one_window_per_day(rows),
        0 <= k < rows.len(),
    ensures
        granted(rows, rows[k].user_id as int, rows[k].day_of_week as int, t) <==> rows[k].start.le(
            t,
        ) && t.le(rows[k].end),
{
    let user_id = rows[k].user_id as int;
    let weekday = rows[k].day_of_week as int;
    if granted(rows, user_id, weekday, t) {
        let i = choose|i: int| 0 <= i < rows.len() && (#[trigger] rows[i]).covers(user_id, weekday, t);
        if i != k {
            assert(rows[i].keyed(rows[k].user_id as int, rows[k].day_of_week as int));
        }
    }
    if rows[k].start.le(t) && t.le(rows[k].end) {
        assert(rows[k].covers(user_id, weekday, t));
    }
}

/// Decides whether the user may unlock at `moment`: whether one of their
/// windows on that weekday holds that time, both ends included.
pub fn has_access_at(rows: &Vec<UserAccess>, user_id: i32, moment: &Moment) -> (ok: bool)
    ensures
        ok == granted(rows@, user_id as int, moment.weekday as int, moment.time),
{
    let mut i: usize = 0;
    while i < rows.len()
        invariant
            i <= rows.len(),
            forall|j: int|
                0 <= j < i ==> !(#[trigger] rows@[j]).covers(
                    user_id as int,
                    moment.weekday as int,
                    moment.time,
                ),
        decreases rows.len() - i,
    {
        if rows[i].covers_moment(user_id, moment) {
            return true;
        }
        i += 1;
    }
    false
}

/// What [`has_access_reading`] answers for a clock reading.
pub open spec fn access_at_reading(
    rows: Seq<UserAccess>,
    user_id: int,
    reading: Option<(u64, u32)>,
) -> Result<bool, MappedErrors> {
    match reading {
        None => Err(MappedErrors::InternalServerError),
        Some((secs, nanos)) => match moment_of_reading(secs as int, nanos as int) {
            None => Err(MappedErrors::InternalServerError),
            Some((weekday, tsecs, frac)) => Ok(
                granted(rows, user_id, weekday, TimeOfDay { secs: tsecs as u32, frac: frac as u32 }),
            ),
        },
    }
}

/// Decides whether the user may unlock at the instant the clock read:
/// `reading` is seconds and nanoseconds since the Unix epoch, or `None`
/// where the clock gave nothing. The instant is taken in the gateway's
/// region. A reading that is missing or out of range is an internal error,
/// never a denial.
pub fn has_access_reading(rows: &Vec<UserAccess>, user_id: i32, reading: Option<(u64, u32)>) -> (r:
    Result<bool, MappedErrors>)
    ensures
        r == access_at_reading(rows@, user_id as int, reading),
{
    match reading {
        None => Err(MappedErrors::InternalServerError),
        Some((secs, nanos)) => match regional_moment_at(secs, nanos) {
            None => Err(MappedErrors::InternalServerError),
            Some(moment) => {
                assert(moment_triple(moment) == (
                    moment.weekday as int,
                    moment.time.secs as int,
                    moment.time.frac as int,
                ));
                Ok(has_access_at(rows, user_id, &moment))
            },
        },
    }
}

/// Decides whether the user may unlock right now, by the system clock.
///
/// Whatever the clock says: the answer is the one [`has_access_reading`]
/// gives for some reading, so a user with no window at all is never granted.
pub fn has_access_now(rows: &Vec<UserAccess>, user_id: i32) -> (r: Result<bool, MappedErrors>)
    ensures
        exists|reading: Option<(u64, u32)>| r == #[trigger] access_at_reading(rows@, user_id as int, reading),
        (forall|i: int| 0 <= i < rows.len() ==> (#[trigger] rows@[i]).user_id != user_id) ==> r != Ok::<bool, MappedErrors>(true),
{
    let reading = system_time();
    let r = has_access_reading(rows, user_id, reading);
    assert(r == access_at_reading(rows@, user_id as int, reading));
    r
}

} // verus!
