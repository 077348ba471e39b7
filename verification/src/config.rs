//! The device's operating parameters and their compiled-in defaults.
//!
//! A `Configuration` is replaced wholesale on every successful remote
//! refresh; when a fetch fails the compiled-in default takes its place, so
//! the device never runs without a usable schedule.

use vstd::prelude::*;

verus! {

/// Tolerance window, in minutes, during which an occurrence counts as
/// alarm time.
pub const DEFAULT_ALARM_INTERVAL_MINUTES: u32 = 1;

/// The user's time zone, as seconds east of UTC.
pub const DEFAULT_TIMEZONE: i32 = 60 * 60;

/// Seconds between liveness signals.
pub const DEFAULT_I_AM_ALIVE_INTERVAL_SECONDS: u32 = 30;

/// Whether the liveness signal is sent at all.
pub const ENABLE_I_AM_ALIVE_ACK: bool = false;

/// Where the liveness signal goes when no remote configuration said
/// otherwise.
pub const DEFAULT_I_AM_ALIVE_ENDPOINT: &'static str = "";

/// How often a configuration refresh is attempted: the top of every minute.
pub const CHECK_INTERVAL_CONFIGURATION_CRON: &'static str =
    "0   0-59   0-23      1-31       Jan-Dec  Mon,Tue,Wed,Thu,Fri,Sat,Sun          2023-2100";

/// The compiled-in wake schedules: workday mornings at 08:45 and 09:30.
pub const DEFAULT_CRONTAB_FIRST: &'static str =
    "0   45   8     1-31       Jan-Dec  Mon,Tue,Wed,Thu,Fri  2023-2100";
pub const DEFAULT_CRONTAB_SECOND: &'static str =
    "0    30   9     1-31       Jan-Dec  Mon,Tue,Wed,Thu,Fri  2023-2100";

/// One wake schedule as the remote server sends it: a cron-style
/// expression and a free-text description.
#[derive(Clone, Debug)]
pub struct CronListResponse {
    pub cron: String,
    pub description: String,
}

impl CronListResponse {
    pub fn new(cron: String, description: String) -> (r: CronListResponse)
        ensures
            r.cron == cron,
            r.description == description,
    {
        CronListResponse { cron, description }
    }
}

/// The device's operating parameters.
#[derive(Clone, Debug)]
pub struct Configuration {
    pub i_am_alive_endpoint: String,
    pub i_am_alive_interval_seconds: u32,
    pub cron_list: Vec<CronListResponse>,
    pub timezone_seconds: i32,
    pub alarm_interval_minutes: u32,
}

/// Whether a network fetch of the configuration failed, and how. The
/// transport and the decoding both live outside the library; they report
/// their failures through this type.
#[derive(Clone, Copy, Debug, PartialEq, Eq, Structural)]
pub enum FetchError {
    /// The request never produced a well-formed response body.
    Connection,
    /// The response body did not decode into a configuration record.
    Decode,
}

/// Field-by-field description of the compiled-in default configuration.
pub open spec fn is_default_configuration(c: Configuration) -> bool {
    &&& c.i_am_alive_endpoint@ == DEFAULT_I_AM_ALIVE_ENDPOINT@
    &&& c.i_am_alive_interval_seconds == DEFAULT_I_AM_ALIVE_INTERVAL_SECONDS
    &&& c.cron_list@.len() == 2
    &&& c.cron_list@[0].cron@ == DEFAULT_CRONTAB_FIRST@
    &&& c.cron_list@[0].description@ == "alarm"@
    &&& c.cron_list@[1].cron@ == DEFAULT_CRONTAB_SECOND@
    &&& c.cron_list@[1].description@ == "alarm"@
    &&& c.timezone_seconds == DEFAULT_TIMEZONE
    &&& c.alarm_interval_minutes == DEFAULT_ALARM_INTERVAL_MINUTES
}

/// The compiled-in default configuration, used whenever the remote fetch
/// fails.
pub fn get_default_configuration() -> (r: Configuration)
    ensures
        is_default_configuration(r),
{
    let mut cron_list: Vec<CronListResponse> = Vec::new();
    cron_list.push(CronListResponse::new(DEFAULT_CRONTAB_FIRST.to_owned(), "alarm".to_owned()));
    cron_list.push(CronListResponse::new(DEFAULT_CRONTAB_SECOND.to_owned(), "alarm".to_owned()));
    Configuration {
        i_am_alive_endpoint: DEFAULT_I_AM_ALIVE_ENDPOINT.to_owned(),
        i_am_alive_interval_seconds: DEFAULT_I_AM_ALIVE_INTERVAL_SECONDS,
        cron_list,
        timezone_seconds: DEFAULT_TIMEZONE,
        alarm_interval_minutes: DEFAULT_ALARM_INTERVAL_MINUTES,
    }
}

/// The configuration a fetch attempt leaves the device with: the fetched
/// record when the attempt succeeded, the compiled-in default otherwise.
pub fn load_remote_configuration_or_default(fetch_result: Result<Configuration, FetchError>) -> (r:
    Configuration)
    ensures
        fetch_result is Ok ==> r == fetch_result->Ok_0,
        fetch_result is Err ==> is_default_configuration(r),
{
    match fetch_result {
        Ok(data) => data,
        Err(_) => get_default_configuration(),
    }
}

} // verus!
