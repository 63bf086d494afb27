use door_gateway::clock::{regional_moment_at, Moment, TimeOfDay};
use door_gateway::models::users_accesses::{
    check_bounds, has_access_at, has_access_now, has_access_reading, UserAccess, UserAccessCreate,
    UserAccessUpdate,
};
use door_gateway::utils::MappedErrors;

const MONDAY: u32 = 2;

fn at(hour: u32, min: u32, sec: u32) -> TimeOfDay {
    TimeOfDay::from_hms(hour, min, sec).unwrap()
}

fn monday_window(user_id: i32) -> UserAccess {
    UserAccess { user_id, day_of_week: 2, start: at(8, 0, 0), end: at(17, 0, 0) }
}

#[test]
fn window_grants_at_both_bounds_and_denies_a_second_outside() {
    let rows = vec![monday_window(1)];
    let on = |time: TimeOfDay| has_access_at(&rows, 1, &Moment { weekday: MONDAY, time });
    assert!(on(at(8, 0, 0)));
    assert!(on(at(17, 0, 0)));
    assert!(on(at(12, 30, 0)));
    assert!(!on(at(7, 59, 59)));
    assert!(!on(at(17, 0, 1)));
}

#[test]
fn window_bounds_count_fractions_of_a_second() {
    let rows = vec![monday_window(1)];
    let on = |secs: u32, frac: u32| {
        has_access_at(&rows, 1, &Moment { weekday: MONDAY, time: TimeOfDay { secs, frac } })
    };
    assert!(!on(8 * 3600 - 1, 999_999_999));
    assert!(on(8 * 3600, 1));
    assert!(on(17 * 3600 - 1, 999_999_999));
    assert!(!on(17 * 3600, 1));
}

#[test]
fn user_without_a_window_on_the_weekday_is_denied() {
    let rows = vec![
        UserAccess { user_id: 1, day_of_week: 1, start: at(0, 0, 0), end: at(23, 59, 59) },
        UserAccess { user_id: 1, day_of_week: 3, start: at(0, 0, 0), end: at(23, 59, 59) },
        UserAccess { user_id: 1, day_of_week: 7, start: at(0, 0, 0), end: at(23, 59, 59) },
        monday_window(2),
    ];
    for hour in 0..24 {
        assert!(!has_access_at(&rows, 1, &Moment { weekday: MONDAY, time: at(hour, 0, 0) }));
    }
    assert!(has_access_at(&rows, 2, &Moment { weekday: MONDAY, time: at(9, 0, 0) }));
    assert!(has_access_at(&rows, 1, &Moment { weekday: 3, time: at(9, 0, 0) }));
    assert!(!has_access_at(&Vec::new(), 1, &Moment { weekday: MONDAY, time: at(9, 0, 0) }));
}

#[test]
fn window_that_starts_after_it_ends_never_matches() {
    let rows = vec![UserAccess { user_id: 1, day_of_week: 2, start: at(22, 0, 0), end: at(2, 0, 0) }];
    for hour in 0..24 {
        assert!(!has_access_at(&rows, 1, &Moment { weekday: MONDAY, time: at(hour, 0, 0) }));
    }
    assert!(!rows[0].validate());
}

#[test]
fn clock_reading_is_taken_in_the_region() {
    // 2024-01-01 is a Monday; the region is three hours behind UTC then.
    let monday_midnight_utc = 1_704_067_200u64;
    let m = regional_moment_at(monday_midnight_utc + 11 * 3600, 0).unwrap();
    assert_eq!(m, Moment { weekday: 2, time: at(8, 0, 0) });
    let m = regional_moment_at(monday_midnight_utc + 2 * 3600 + 3599, 5).unwrap();
    assert_eq!(m, Moment { weekday: 1, time: TimeOfDay { secs: 86399, frac: 5 } });
    let m = regional_moment_at(monday_midnight_utc + 3 * 3600, 0).unwrap();
    assert_eq!(m, Moment { weekday: 2, time: at(0, 0, 0) });
    // On 2018-01-01 daylight saving was in force: two hours behind UTC.
    let m = regional_moment_at(1_514_764_800, 0).unwrap();
    assert_eq!(m, Moment { weekday: 1, time: at(22, 0, 0) });
    // 2024-01-06 is a Saturday.
    let m = regional_moment_at(monday_midnight_utc + 5 * 86400 + 15 * 3600, 0).unwrap();
    assert_eq!(m, Moment { weekday: 7, time: at(12, 0, 0) });
}

#[test]
fn clock_reading_out_of_range_has_no_moment() {
    assert!(regional_moment_at(u64::MAX, 0).is_none());
    assert!(regional_moment_at(i64::MAX as u64, 0).is_none());
    assert!(regional_moment_at(0, 2_000_000_000).is_none());
    assert_eq!(regional_moment_at(0, 0), Some(Moment { weekday: 4, time: at(21, 0, 0) }));
}

#[test]
fn access_by_clock_reading_follows_the_regional_moment() {
    let rows = vec![monday_window(1)];
    let monday_midnight_utc = 1_704_067_200u64;
    let eight = monday_midnight_utc + 11 * 3600;
    let seventeen = monday_midnight_utc + 20 * 3600;
    assert_eq!(has_access_reading(&rows, 1, Some((eight, 0))), Ok(true));
    assert_eq!(has_access_reading(&rows, 1, Some((seventeen, 0))), Ok(true));
    assert_eq!(has_access_reading(&rows, 1, Some((eight - 1, 0))), Ok(false));
    assert_eq!(has_access_reading(&rows, 1, Some((seventeen + 1, 0))), Ok(false));
    assert_eq!(has_access_reading(&rows, 1, Some((eight + 86400, 0))), Ok(false));
    assert_eq!(has_access_reading(&rows, 2, Some((eight, 0))), Ok(false));
}

#[test]
fn access_without_a_usable_clock_reading_is_an_internal_error() {
    let rows = vec![monday_window(1)];
    assert_eq!(has_access_reading(&rows, 1, None), Err(MappedErrors::InternalServerError));
    assert_eq!(has_access_reading(&rows, 1, Some((u64::MAX, 0))), Err(MappedErrors::InternalServerError));
}

#[test]
fn access_now_is_granted_by_windows_that_span_the_week() {
    let all_week: Vec<UserAccess> = (1..=7)
        .map(|day| UserAccess {
            user_id: 9,
            day_of_week: day,
            start: TimeOfDay { secs: 0, frac: 0 },
            end: TimeOfDay { secs: 86399, frac: 1_999_999_999 },
        })
        .collect();
    assert_eq!(has_access_now(&all_week, 9), Ok(true));
    assert_eq!(has_access_now(&all_week, 8), Ok(false));
    assert_eq!(has_access_now(&Vec::new(), 9), Ok(false));
}

#[test]
fn time_of_day_is_built_from_hours_minutes_and_seconds() {
    assert_eq!(TimeOfDay::from_hms(8, 0, 0), Some(TimeOfDay { secs: 28800, frac: 0 }));
    assert_eq!(TimeOfDay::from_hms(23, 59, 59), Some(TimeOfDay { secs: 86399, frac: 0 }));
    assert_eq!(TimeOfDay::from_hms(24, 0, 0), None);
    assert_eq!(TimeOfDay::from_hms(0, 60, 0), None);
    assert_eq!(TimeOfDay::from_hms(0, 0, 60), None);
    assert!(at(8, 0, 0).at_or_before(&at(8, 0, 0)));
    assert!(at(8, 0, 0).at_or_before(&at(8, 0, 1)));
    assert!(!at(8, 0, 1).at_or_before(&at(8, 0, 0)));
    assert!(TimeOfDay { secs: 86399, frac: 1_999_999_999 }.is_valid());
    assert!(!TimeOfDay { secs: 86400, frac: 0 }.is_valid());
    assert!(!TimeOfDay { secs: 0, frac: 2_000_000_000 }.is_valid());
}

#[test]
fn windows_are_checked_before_they_are_written() {
    assert!(check_bounds(&at(8, 0, 0), &at(8, 0, 0)));
    assert!(!check_bounds(&at(8, 0, 1), &at(8, 0, 0)));
    assert!(!check_bounds(&at(8, 0, 0), &TimeOfDay { secs: 90000, frac: 0 }));
    let create = |day: i32| UserAccessCreate { day_of_week: day, start: at(8, 0, 0), end: at(17, 0, 0) };
    assert!(create(1).validate());
    assert!(create(7).validate());
    assert!(!create(0).validate());
    assert!(!create(8).validate());
    assert!(!UserAccessCreate { day_of_week: 2, start: at(17, 0, 0), end: at(8, 0, 0) }.validate());
    assert!(UserAccessUpdate { start: at(8, 0, 0), end: at(17, 0, 0) }.validate());
    assert!(!UserAccessUpdate { start: at(17, 0, 0), end: at(8, 0, 0) }.validate());
    assert!(monday_window(1).validate());
    assert!(monday_window(1).covers_moment(1, &Moment { weekday: MONDAY, time: at(8, 0, 0) }));
    assert!(!monday_window(1).covers_moment(1, &Moment { weekday: 3, time: at(8, 0, 0) }));
}
