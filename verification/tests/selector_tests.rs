use alarm_clock::config::{Configuration, CronListResponse};
use alarm_clock::datetime::{is_time_to_buzz, LocalDateTime};
use alarm_clock::schedule::{from_str_to_date_time, ScheduleError};
use alarm_clock::selector::calculate_next_scheduled_time;

fn dt(year: i32, month: u32, day: u32, hour: u32, minute: u32, second: u32) -> LocalDateTime {
    LocalDateTime { year, month, day, hour, minute, second }
}

fn entry(cron: &str) -> CronListResponse {
    CronListResponse::new(cron.to_owned(), "alarm".to_owned())
}

const WORKDAY_0845: &str = "0   45   8     1-31       Jan-Dec  Mon,Tue,Wed,Thu,Fri  2023-2100";
const WORKDAY_0930: &str = "0    30   9     1-31       Jan-Dec  Mon,Tue,Wed,Thu,Fri  2023-2100";

#[test]
fn selector_picks_the_earliest_pending_occurrence() {
    // order of the entries must not matter; 2023-05-08 is a Monday
    let now = dt(2023, 5, 8, 0, 0, 0);
    let crons = vec![entry(WORKDAY_0930), entry(WORKDAY_0845)];
    let picked = calculate_next_scheduled_time(&crons, &now).unwrap();
    assert_eq!(picked, dt(2023, 5, 8, 8, 45, 0));
    assert!(now.is_before(&picked));

    // between the two occurrences the later schedule wins
    let later = dt(2023, 5, 8, 9, 0, 0);
    assert_eq!(calculate_next_scheduled_time(&crons, &later).unwrap(), dt(2023, 5, 8, 9, 30, 0));
}

#[test]
fn selector_equals_minimum_of_each_expression() {
    let now = dt(2023, 5, 8, 0, 0, 0);
    let crons = vec![entry(WORKDAY_0930), entry(WORKDAY_0845)];
    let picked = calculate_next_scheduled_time(&crons, &now).unwrap();
    let first = from_str_to_date_time(WORKDAY_0930, &now).unwrap();
    let second = from_str_to_date_time(WORKDAY_0845, &now).unwrap();
    let expected = if first.is_before(&second) { first } else { second };
    assert_eq!(picked, expected);
}

#[test]
fn empty_schedule_set_yields_a_sentinel_that_never_buzzes() {
    let now = dt(2023, 5, 8, 10, 30, 0);
    let sentinel = calculate_next_scheduled_time(&Vec::new(), &now).unwrap();
    // a fixed reading in year 1: no reachable clock shares its date
    assert_eq!(sentinel, dt(1, 1, 1, 0, 0, 0));
    assert!(!is_time_to_buzz(&sentinel, &now, 1));
    assert!(!is_time_to_buzz(&sentinel, &now, 59));
    assert!(!is_time_to_buzz(&sentinel, &dt(2023, 5, 8, 10, 31, 0), 1));
    // one minute after midnight, window one minute: still no match
    assert!(!is_time_to_buzz(&sentinel, &dt(2023, 5, 9, 0, 1, 0), 1));
    // the same value comes back whatever the current instant
    let elsewhere = dt(2030, 12, 31, 23, 59, 59);
    assert_eq!(calculate_next_scheduled_time(&Vec::new(), &elsewhere).unwrap(), sentinel);
    assert!(!is_time_to_buzz(&sentinel, &elsewhere, 10));
}

#[test]
fn workday_alarm_window_scenario() {
    // a single workday-morning schedule, a one-minute window, on a weekday
    let crons = vec![entry("0 45 8 * * Mon-Fri 2023-2100")];
    let early = dt(2023, 5, 8, 8, 0, 0);
    let alarm = calculate_next_scheduled_time(&crons, &early).unwrap();
    assert_eq!(alarm, dt(2023, 5, 8, 8, 45, 0));
    // thirty seconds into the scheduled minute: the window holds
    assert!(is_time_to_buzz(&alarm, &dt(2023, 5, 8, 8, 45, 30), 1));
    // two minutes in: it does not
    assert!(!is_time_to_buzz(&alarm, &dt(2023, 5, 8, 8, 47, 0), 1));
}

#[test]
fn selector_reports_the_first_unusable_schedule() {
    let now = dt(2023, 5, 8, 0, 0, 0);
    let crons = vec![entry(WORKDAY_0845), entry("garbage")];
    assert_eq!(
        calculate_next_scheduled_time(&crons, &now),
        Err(ScheduleError::InvalidExpression),
    );
    let exhausted = vec![entry("0 0 0 1 Jan * 2023"), entry("garbage")];
    assert_eq!(
        calculate_next_scheduled_time(&exhausted, &dt(2024, 1, 1, 0, 0, 0)),
        Err(ScheduleError::NoUpcomingOccurrence),
    );
}

fn json_str(v: &serde_json::Value, field: &str) -> String {
    v.get(field).and_then(|f| f.as_str()).expect("string field").to_owned()
}

/// Builds a `Configuration` from a well-formed response body, the way the
/// surrounding program decodes one.
fn decode_configuration(body: &str) -> Configuration {
    let v: serde_json::Value = serde_json::from_str(body).expect("well-formed response");
    let cron_list = v
        .get("cronList")
        .and_then(|f| f.as_array())
        .expect("cronList field")
        .iter()
        .map(|item| CronListResponse::new(json_str(item, "cron"), json_str(item, "description")))
        .collect();
    Configuration {
        i_am_alive_endpoint: json_str(&v, "iamAliveEndpoint"),
        i_am_alive_interval_seconds: v
            .get("iamAliveIntervalSeconds")
            .and_then(|f| f.as_u64())
            .expect("interval field") as u32,
        cron_list,
        timezone_seconds: v
            .get("timezoneSeconds")
            .and_then(|f| f.as_i64())
            .expect("timezone field") as i32,
        alarm_interval_minutes: v
            .get("alarmIntervalMinutes")
            .and_then(|f| f.as_u64())
            .expect("window field") as u32,
    }
}

#[test]
fn decoded_configuration_selects_like_the_original_strings() {
    let body = format!(
        "{{\"iamAliveEndpoint\":\"http://example.invalid/alive\",\
          \"iamAliveIntervalSeconds\":30,\
          \"cronList\":[{{\"cron\":\"{a}\",\"description\":\"first\"}},\
                        {{\"cron\":\"{b}\",\"description\":\"second\"}}],\
          \"timezoneSeconds\":3600,\
          \"alarmIntervalMinutes\":1}}",
        a = WORKDAY_0930,
        b = WORKDAY_0845,
    );
    let decoded = decode_configuration(&body);
    assert_eq!(decoded.cron_list.len(), 2);

    let now = dt(2023, 5, 8, 0, 0, 0);
    let through_configuration =
        calculate_next_scheduled_time(&decoded.cron_list, &now).unwrap();
    let direct = calculate_next_scheduled_time(&vec![entry(WORKDAY_0930), entry(WORKDAY_0845)], &now)
        .unwrap();
    assert_eq!(through_configuration, direct);
    assert_eq!(through_configuration, dt(2023, 5, 8, 8, 45, 0));
}
