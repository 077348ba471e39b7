//! The cooperative tick loop's state machine.
//!
//! On a fixed fast tick the orchestrator decides whether to fire the alert,
//! recompute the next alarm, resynchronize the clock, refresh the remote
//! configuration, or emit a liveness signal — each at most once per its own
//! time window, though the tick re-evaluates dozens of times per second.
//! Each periodic concern is guarded by a latch: a boolean set on the first
//! evaluation inside the concern's window and cleared again as soon as the
//! window is left, so the action re-arms for the next window.
//!
//! The functions here take the current instant and the session state and
//! return which external actions the caller must perform this tick; the
//! actions themselves (driver calls, network requests, the actuator pulse)
//! happen outside the library.

use vstd::prelude::*;

use crate::config::{
    is_default_configuration, load_remote_configuration_or_default, Configuration, FetchError,
    CHECK_INTERVAL_CONFIGURATION_CRON,
};
use crate::datetime::{
    at_second, in_arrival_window, is_same_sec, is_same_time, is_same_time_sec, is_time_to_buzz,
    minus_seconds, plus_seconds, same_time_minute, same_time_second, shifted_back, shifted_forward,
    LocalDateTime,
};
use crate::schedule::{
    cron_accepts, cron_next, evaluation_error_of, from_str_to_date_time_after, ScheduleError,
};
use crate::selector::{
    calculate_next_scheduled_time, selector_error_reported, selector_result_is, selector_succeeds,
};

verus! {

/// A latch fires only while its window holds and it is still armed.
pub open spec fn latch_fires(latch: bool, in_window: bool) -> bool {
    in_window && !latch
}

/// A latch's value after an evaluation: set while the window holds, false
/// as soon as it does not.
pub open spec fn latch_next(latch: bool, in_window: bool) -> bool {
    in_window
}

/// Each latch transitions false-to-true at most once per matching window:
/// a latch fires only from the armed state; once an evaluation inside the
/// window has run, no further evaluation in that window can fire; and the
/// first evaluation outside the window re-arms the latch, so the action
/// can fire again on the next window entry.
pub proof fn lemma_latch_once_per_window(latch: bool, window_first: bool, window_second: bool)
    ensures
        latch_fires(latch, window_first) ==> !latch,
        window_first && window_second ==> !latch_fires(
            latch_next(latch, window_first),
            window_second,
        ),
        !window_first ==> latch_next(latch, window_first) == false,
{
}

/// Time-sync coordinator. Its window is the minute of day of the fixed
/// anchor instant; the returned flag tells the caller to perform the
/// (connectivity-guarded) clock synchronization now.
pub fn sync_system_clock_if_necessary(
    ntp_synchronized: &mut bool,
    ntp_sync_time: &LocalDateTime,
    now: &LocalDateTime,
) -> (do_sync: bool)
    ensures
        do_sync == latch_fires(*old(ntp_synchronized), same_time_minute(*ntp_sync_time, *now)),
        *final(ntp_synchronized) == latch_next(
            *old(ntp_synchronized),
            same_time_minute(*ntp_sync_time, *now),
        ),
{
    if !*ntp_synchronized && is_same_time(ntp_sync_time, now) {
        *ntp_synchronized = true;
        true
    } else {
        if *ntp_synchronized && !is_same_time(ntp_sync_time, now) {
            *ntp_synchronized = false;
        }
        false
    }
}

/// Liveness coordinator. Its window is one fixed second of every minute;
/// when the feature flag is off it neither fires nor touches the latch.
/// The latch is set whenever the window holds, whether or not the send
/// that the caller then performs succeeds: liveness is advisory.
pub fn send_i_am_alive_if_necessary(
    i_am_alive_sent: &mut bool,
    second_number: u32,
    now: &LocalDateTime,
    enabled: bool,
) -> (send: bool)
    ensures
        send == (enabled && latch_fires(*old(i_am_alive_sent), at_second(second_number, *now))),
        enabled ==> *final(i_am_alive_sent) == latch_next(
            *old(i_am_alive_sent),
            at_second(second_number, *now),
        ),
        !enabled ==> *final(i_am_alive_sent) == *old(i_am_alive_sent),
{
    if !enabled {
        return false;
    }
    if is_same_sec(second_number, now) && !*i_am_alive_sent {
        *i_am_alive_sent = true;
        true
    } else {
        if !is_same_sec(second_number, now) && *i_am_alive_sent {
            *i_am_alive_sent = false;
        }
        false
    }
}

/// The fixed refresh-check expression parses and selects an instant after
/// `now`. The expression is a compiled-in constant that matches the top of
/// every minute; a failed evaluation of it is a configuration defect.
pub open spec fn config_check_expression_usable(now: LocalDateTime) -> bool {
    cron_accepts(CHECK_INTERVAL_CONFIGURATION_CRON@) && cron_next(
        CHECK_INTERVAL_CONFIGURATION_CRON@,
        now,
    ) is Some
}

/// Configuration-refresh coordinator, first half. Recomputes the next
/// scheduled check instant from the fixed check expression, and decides —
/// against the *previous* value, so that clock drift cannot re-trigger the
/// same check — whether a fetch attempt is owed this tick. The returned
/// flag tells the caller to fetch now and hand the outcome to
/// `apply_config_fetch`.
pub fn retrieve_config_if_necessary(
    downloaded: &mut bool,
    cron_time: &mut LocalDateTime,
    now: &LocalDateTime,
) -> (r: Result<bool, ScheduleError>)
    requires
        now.wf(),
    ensures
        r is Ok <==> config_check_expression_usable(*now),
        r is Err ==> *final(downloaded) == *old(downloaded) && *final(cron_time) == *old(
            cron_time,
        ) && r->Err_0 == evaluation_error_of(CHECK_INTERVAL_CONFIGURATION_CRON@, *now),
        r is Ok ==> Some(*final(cron_time)) == cron_next(CHECK_INTERVAL_CONFIGURATION_CRON@, *now),
        r is Ok ==> r->Ok_0 == latch_fires(
            *old(downloaded),
            same_time_second(*old(cron_time), *now),
        ),
        r is Ok ==> *final(downloaded) == latch_next(
            *old(downloaded),
            same_time_second(*old(cron_time), *now),
        ),
{
    let new_cron_time = match from_str_to_date_time_after(CHECK_INTERVAL_CONFIGURATION_CRON, now) {
        Ok(t) => t,
        Err(e) => {
            return Err(e);
        },
    };
    let old_cron_time = *cron_time;
    *cron_time = new_cron_time;
    if is_same_time_sec(&old_cron_time, now) && !*downloaded {
        *downloaded = true;
        Ok(true)
    } else {
        if !is_same_time_sec(&old_cron_time, now) && *downloaded {
            *downloaded = false;
        }
        Ok(false)
    }
}

/// Configuration-refresh coordinator, second half: installs what the fetch
/// produced — the fetched record, or the compiled-in default on any
/// failure — wholesale, and invalidates the alarm so the selector reruns
/// against whatever configuration is now active.
pub fn apply_config_fetch(
    configuration: &mut Configuration,
    is_calculated_alarm_next_date_time: &mut bool,
    fetch_result: Result<Configuration, FetchError>,
)
    ensures
        fetch_result is Ok ==> *final(configuration) == fetch_result->Ok_0,
        fetch_result is Err ==> is_default_configuration(*final(configuration)),
        *final(is_calculated_alarm_next_date_time) == false,
{
    *configuration = load_remote_configuration_or_default(fetch_result);
    *is_calculated_alarm_next_date_time = false;
}

/// Recomputes the next alarm through the selector when the stored one is
/// stale, and marks it fresh; does nothing when it is already fresh.
pub fn calculate_alarm_next_date_time(
    is_calculated_alarm_next_date_time: &mut bool,
    alarm: &mut LocalDateTime,
    configuration: &Configuration,
    now: &LocalDateTime,
) -> (r: Result<(), ScheduleError>)
    requires
        now.wf(),
    ensures
        *old(is_calculated_alarm_next_date_time) ==> r is Ok && *final(alarm) == *old(alarm)
            && *final(is_calculated_alarm_next_date_time),
        !*old(is_calculated_alarm_next_date_time) ==> ((r is Ok) <==> selector_succeeds(
            configuration.cron_list@,
            *now,
        )),
        !*old(is_calculated_alarm_next_date_time) && r is Ok ==> {
            &&& *final(is_calculated_alarm_next_date_time)
            &&& selector_result_is(configuration.cron_list@, *now, *final(alarm))
            &&& final(alarm).wf()
        },
        r is Err ==> *final(alarm) == *old(alarm) && *final(is_calculated_alarm_next_date_time)
            == *old(is_calculated_alarm_next_date_time) && selector_error_reported(
            configuration.cron_list@,
            *now,
            r->Err_0,
        ),
{
    if !*is_calculated_alarm_next_date_time {
        match calculate_next_scheduled_time(&configuration.cron_list, now) {
            Ok(t) => {
                *alarm = t;
                *is_calculated_alarm_next_date_time = true;
                Ok(())
            },
            Err(e) => Err(e),
        }
    } else {
        Ok(())
    }
}

/// The fixed second-of-minute at which liveness fires, computed once at
/// boot from the boot instant's second and the configured interval. By
/// design it is not recomputed when a configuration refresh changes the
/// interval: the offset is fixed for the process lifetime.
pub fn compute_i_am_alive_second(boot_second: u32, interval_seconds: u32) -> (r: u32)
    ensures
        r == (boot_second + interval_seconds) % 60,
        r < 60,
{
    (((boot_second as u64) + (interval_seconds as u64)) % 60) as u32
}

/// The local reading of the fixed clock-sync anchor — midnight UTC of
/// 2023-01-01 — in the user's offset. Only its minute of day matters: the
/// sync window recurs daily at that wall-clock minute.
pub open spec fn ntp_anchor_of(tz_offset_seconds: int) -> LocalDateTime {
    let base = LocalDateTime { year: 2023, month: 1, day: 1, hour: 0, minute: 0, second: 0 };
    if tz_offset_seconds >= 0 {
        shifted_forward(base, tz_offset_seconds)
    } else {
        shifted_back(base, -tz_offset_seconds)
    }
}

pub fn ntp_sync_anchor(tz_offset_seconds: i32) -> (r: LocalDateTime)
    requires
        -86400 < tz_offset_seconds < 86400,
    ensures
        r == ntp_anchor_of(tz_offset_seconds as int),
        r.wf(),
{
    let base = LocalDateTime { year: 2023, month: 1, day: 1, hour: 0, minute: 0, second: 0 };
    if tz_offset_seconds >= 0 {
        plus_seconds(&base, tz_offset_seconds as u32)
    } else {
        minus_seconds(&base, (-tz_offset_seconds) as u32)
    }
}

/// Values fixed at boot and never changed by the periodic loop — not even
/// by a configuration refresh.
#[derive(Clone, Copy, Debug)]
pub struct BootParams {
    /// Anchor of the daily time-sync window.
    pub ntp_sync_time: LocalDateTime,
    /// Second of minute at which liveness fires.
    pub i_am_alive_cron_time: u32,
    /// Feature flag: whether liveness is sent at all.
    pub enable_i_am_alive_ack: bool,
}

/// The mutable session state the orchestrator owns.
#[derive(Clone, Debug)]
pub struct SessionState {
    /// The active operating parameters.
    pub configuration: Configuration,
    /// Next instant at which the alert should fire.
    pub next_alarm: LocalDateTime,
    /// Latch: false means `next_alarm` is stale and must be recomputed.
    pub alarm_is_fresh: bool,
    /// Latch of the once-per-day time-sync window.
    pub clock_synced: bool,
    /// Latch of the configuration-refresh window.
    pub config_checked: bool,
    /// Latch of the liveness window.
    pub liveness_sent: bool,
    /// Next scheduled configuration-check instant.
    pub next_config_check: LocalDateTime,
}

/// What the caller must do after one tick.
#[derive(Clone, Copy, Debug, PartialEq, Eq, Structural)]
pub struct TickActions {
    /// Fire the physical alert.
    pub buzz: bool,
    /// Perform the guarded clock synchronization.
    pub sync_clock: bool,
    /// Fetch the remote configuration and hand the outcome to
    /// `apply_config_fetch`.
    pub fetch_config: bool,
    /// Send the liveness signal.
    pub send_i_am_alive: bool,
}

/// The tick fires the alert: `now` lies in the arrival window of the
/// stored alarm, under the active configuration's tolerance.
pub open spec fn tick_buzzes(s: SessionState, now: LocalDateTime) -> bool {
    in_arrival_window(s.next_alarm, now, s.configuration.alarm_interval_minutes)
}

/// One tick of the orchestrator.
///
/// If the alert condition holds, the only action is the alert and the
/// alarm is marked stale; otherwise the alarm is recomputed if stale and
/// the three coordinators run in their fixed order. An error means a
/// schedule expression of the active configuration (or the compiled-in
/// check expression) failed to evaluate — a configuration defect the
/// caller treats as fatal — and leaves the state unchanged.
pub fn tick(state: &mut SessionState, params: &BootParams, now: &LocalDateTime) -> (r: Result<
    TickActions,
    ScheduleError,
>)
    requires
        now.wf(),
    ensures
        r is Ok ==> r->Ok_0.buzz == tick_buzzes(*old(state), *now),
        tick_buzzes(*old(state), *now) ==> r is Ok && *final(state) == (SessionState {
            alarm_is_fresh: false,
            ..*old(state)
        }) && r->Ok_0 == (TickActions {
            buzz: true,
            sync_clock: false,
            fetch_config: false,
            send_i_am_alive: false,
        }),
        !tick_buzzes(*old(state), *now) ==> ((r is Ok) <==> ((old(state).alarm_is_fresh
            || selector_succeeds(old(state).configuration.cron_list@, *now))
            && config_check_expression_usable(*now))),
        !tick_buzzes(*old(state), *now) && r is Ok ==> {
            &&& final(state).configuration == old(state).configuration
            &&& final(state).alarm_is_fresh == true
            &&& (old(state).alarm_is_fresh ==> final(state).next_alarm == old(state).next_alarm)
            &&& (!old(state).alarm_is_fresh ==> selector_result_is(
                old(state).configuration.cron_list@,
                *now,
                final(state).next_alarm,
            ))
            &&& final(state).clock_synced == latch_next(
                old(state).clock_synced,
                same_time_minute(params.ntp_sync_time, *now),
            )
            &&& r->Ok_0.sync_clock == latch_fires(
                old(state).clock_synced,
                same_time_minute(params.ntp_sync_time, *now),
            )
            &&& Some(final(state).next_config_check) == cron_next(
                CHECK_INTERVAL_CONFIGURATION_CRON@,
                *now,
            )
            &&& final(state).config_checked == latch_next(
                old(state).config_checked,
                same_time_second(old(state).next_config_check, *now),
            )
            &&& r->Ok_0.fetch_config == latch_fires(
                old(state).config_checked,
                same_time_second(old(state).next_config_check, *now),
            )
            &&& final(state).liveness_sent == (if params.enable_i_am_alive_ack {
                latch_next(
                    old(state).liveness_sent,
                    at_second(params.i_am_alive_cron_time, *now),
                )
            } else {
                old(state).liveness_sent
            })
            &&& r->Ok_0.send_i_am_alive == (params.enable_i_am_alive_ack && latch_fires(
                old(state).liveness_sent,
                at_second(params.i_am_alive_cron_time, *now),
            ))
        },
        r is Err ==> *final(state) == *old(state) && (if !old(state).alarm_is_fresh
            && !selector_succeeds(old(state).configuration.cron_list@, *now) {
            selector_error_reported(old(state).configuration.cron_list@, *now, r->Err_0)
        } else {
            r->Err_0 == evaluation_error_of(CHECK_INTERVAL_CONFIGURATION_CRON@, *now)
        }),
{
    if is_time_to_buzz(&state.next_alarm, now, state.configuration.alarm_interval_minutes) {
        state.alarm_is_fresh = false;
        return Ok(TickActions {
            buzz: true,
            sync_clock: false,
            fetch_config: false,
            send_i_am_alive: false,
        });
    }
    // Evaluate both fallible schedule computations on local copies first,
    // so that an evaluation error leaves the session state untouched.
    let mut alarm_is_fresh = state.alarm_is_fresh;
    let mut next_alarm = state.next_alarm;
    match calculate_alarm_next_date_time(
        &mut alarm_is_fresh,
        &mut next_alarm,
        &state.configuration,
        now,
    ) {
        Ok(()) => {},
        Err(e) => {
            return Err(e);
        },
    }
    let mut config_checked = state.config_checked;
    let mut next_config_check = state.next_config_check;
    let fetch_config = match retrieve_config_if_necessary(
        &mut config_checked,
        &mut next_config_check,
        now,
    ) {
        Ok(f) => f,
        Err(e) => {
            return Err(e);
        },
    };
    state.alarm_is_fresh = alarm_is_fresh;
    state.next_alarm = next_alarm;
    let mut clock_synced = state.clock_synced;
    let sync_clock = sync_system_clock_if_necessary(&mut clock_synced, &params.ntp_sync_time, now);
    state.clock_synced = clock_synced;
    state.config_checked = config_checked;
    state.next_config_check = next_config_check;
    let mut liveness_sent = state.liveness_sent;
    let send_i_am_alive = send_i_am_alive_if_necessary(
        &mut liveness_sent,
        params.i_am_alive_cron_time,
        now,
        params.enable_i_am_alive_ack,
    );
    state.liveness_sent = liveness_sent;
    Ok(TickActions { buzz: false, sync_clock, fetch_config, send_i_am_alive })
}

/// The session state at the end of boot: latches armed, the alarm marked
/// stale so the first tick recomputes it, and the first check instant
/// evaluated from the fixed check expression.
pub fn boot_session(configuration: Configuration, now: &LocalDateTime) -> (r: Result<
    SessionState,
    ScheduleError,
>)
    requires
        now.wf(),
    ensures
        r is Ok <==> (selector_succeeds(configuration.cron_list@, *now)
            && config_check_expression_usable(*now)),
        r is Ok ==> {
            &&& r->Ok_0.configuration == configuration
            &&& selector_result_is(configuration.cron_list@, *now, r->Ok_0.next_alarm)
            &&& !r->Ok_0.alarm_is_fresh
            &&& !r->Ok_0.clock_synced
            &&& !r->Ok_0.config_checked
            &&& !r->Ok_0.liveness_sent
            &&& Some(r->Ok_0.next_config_check) == cron_next(
                CHECK_INTERVAL_CONFIGURATION_CRON@,
                *now,
            )
        },
        r is Err ==> (if !selector_succeeds(configuration.cron_list@, *now) {
            selector_error_reported(configuration.cron_list@, *now, r->Err_0)
        } else {
            r->Err_0 == evaluation_error_of(CHECK_INTERVAL_CONFIGURATION_CRON@, *now)
        }),
{
    let next_alarm = match calculate_next_scheduled_time(&configuration.cron_list, now) {
        Ok(t) => t,
        Err(e) => {
            return Err(e);
        },
    };
    let next_config_check = match from_str_to_date_time_after(
        CHECK_INTERVAL_CONFIGURATION_CRON,
        now,
    ) {
        Ok(t) => t,
        Err(e) => {
            return Err(e);
        },
    };
    Ok(SessionState {
        configuration,
        next_alarm,
        alarm_is_fresh: false,
        clock_synced: false,
        config_checked: false,
        liveness_sent: false,
        next_config_check,
    })
}

} // verus!
