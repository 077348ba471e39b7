use alarm_clock::datetime::LocalDateTime;
use alarm_clock::schedule::{from_str_to_date_time, from_str_to_date_time_after, ScheduleError};

fn dt(year: i32, month: u32, day: u32, hour: u32, minute: u32, second: u32) -> LocalDateTime {
    LocalDateTime { year, month, day, hour, minute, second }
}

const WORKDAY_0845: &str = "0   45   8     1-31       Jan-Dec  Mon,Tue,Wed,Thu,Fri  2023-2100";

#[test]
fn next_occurrence_is_strictly_after_the_reference() {
    // 2023-05-08 is a Monday.
    let monday_midnight = dt(2023, 5, 8, 0, 0, 0);
    let next = from_str_to_date_time_after(WORKDAY_0845, &monday_midnight).unwrap();
    assert_eq!(next, dt(2023, 5, 8, 8, 45, 0));
    assert!(monday_midnight.is_before(&next));

    // exactly at an occurrence: the result moves strictly past it
    let at_occurrence = dt(2023, 5, 8, 8, 45, 0);
    let after = from_str_to_date_time_after(WORKDAY_0845, &at_occurrence).unwrap();
    assert_eq!(after, dt(2023, 5, 9, 8, 45, 0));
    assert!(at_occurrence.is_before(&after));

    // one second before an occurrence
    let just_before = dt(2023, 5, 8, 8, 44, 59);
    assert_eq!(from_str_to_date_time_after(WORKDAY_0845, &just_before).unwrap(), dt(2023, 5, 8, 8, 45, 0));

    // a Friday evening rolls over the weekend to Monday
    let friday_evening = dt(2023, 5, 12, 20, 0, 0);
    assert_eq!(from_str_to_date_time_after(WORKDAY_0845, &friday_evening).unwrap(), dt(2023, 5, 15, 8, 45, 0));
}

#[test]
fn now_anchored_entry_point_matches_the_after_one() {
    let now = dt(2023, 5, 8, 12, 0, 0);
    assert_eq!(
        from_str_to_date_time(WORKDAY_0845, &now),
        from_str_to_date_time_after(WORKDAY_0845, &now),
    );
}

#[test]
fn invalid_expression_is_reported() {
    let now = dt(2023, 5, 8, 0, 0, 0);
    assert_eq!(
        from_str_to_date_time_after("not a cron expression", &now),
        Err(ScheduleError::InvalidExpression),
    );
    assert_eq!(
        from_str_to_date_time("61 99 8 * * * *", &now),
        Err(ScheduleError::InvalidExpression),
    );
}

#[test]
fn exhausted_year_range_is_reported() {
    let expr = "0 0 0 1 Jan Mon,Tue,Wed,Thu,Fri,Sat,Sun 2023";
    let before = dt(2022, 6, 1, 0, 0, 0);
    assert_eq!(from_str_to_date_time_after(expr, &before).unwrap(), dt(2023, 1, 1, 0, 0, 0));
    let after = dt(2024, 1, 1, 0, 0, 0);
    assert_eq!(
        from_str_to_date_time_after(expr, &after),
        Err(ScheduleError::NoUpcomingOccurrence),
    );
}

#[test]
fn check_interval_expression_selects_every_minute() {
    let expr = alarm_clock::config::CHECK_INTERVAL_CONFIGURATION_CRON;
    let now = dt(2023, 5, 8, 10, 30, 15);
    assert_eq!(from_str_to_date_time_after(expr, &now).unwrap(), dt(2023, 5, 8, 10, 31, 0));
    let at_top = dt(2023, 5, 8, 10, 30, 0);
    assert_eq!(from_str_to_date_time_after(expr, &at_top).unwrap(), dt(2023, 5, 8, 10, 31, 0));
}
