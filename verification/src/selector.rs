//! Alarm selector: the earliest pending occurrence of a set of schedules.
//!
//! Schedules may overlap and come in any order; the device must wake at the
//! single earliest pending event, not once per matching schedule. An empty
//! schedule set yields a sentinel instant that no reachable clock reading
//! can ever match, so the alert condition stays off until a configuration
//! with schedules arrives.

use vstd::prelude::*;

use crate::config::CronListResponse;
use crate::datetime::{in_arrival_window, lemma_before_trichotomy, LocalDateTime};
use crate::schedule::{
    cron_accepts, cron_next, evaluation_error_of, from_str_to_date_time, ScheduleError,
};

verus! {

/// The expression parses and selects an occurrence after `now`.
pub open spec fn schedule_usable(c: CronListResponse, now: LocalDateTime) -> bool {
    cron_accepts(c.cron@) && cron_next(c.cron@, now) is Some
}

/// The occurrence a usable schedule selects.
pub open spec fn next_of(c: CronListResponse, now: LocalDateTime) -> LocalDateTime {
    cron_next(c.cron@, now)->0
}

/// `r` is an occurrence of one of the schedules and no schedule selects an
/// earlier one.
pub open spec fn is_minimum_occurrence(
    crons: Seq<CronListResponse>,
    now: LocalDateTime,
    r: LocalDateTime,
) -> bool {
    &&& exists|j: int| 0 <= j < crons.len() && r == #[trigger] next_of(crons[j], now)
    &&& forall|j: int| 0 <= j < crons.len() ==> r.before_eq(#[trigger] next_of(crons[j], now))
}

/// The instant an empty schedule set selects: a fixed reading at the very
/// start of year 1. The arrival-window predicate demands equal calendar
/// dates, and no clock a running device can read shares a date with year
/// 1, so this sentinel disables the alert until schedules arrive.
pub open spec fn empty_set_sentinel() -> LocalDateTime {
    LocalDateTime { year: 1, month: 1, day: 1, hour: 0, minute: 0, second: 0 }
}

/// Every schedule of the set is usable (vacuously true of the empty set).
pub open spec fn selector_succeeds(crons: Seq<CronListResponse>, now: LocalDateTime) -> bool {
    forall|j: int| 0 <= j < crons.len() ==> #[trigger] schedule_usable(crons[j], now)
}

/// What the selector returns on success: the minimum pending occurrence,
/// strictly after `now`, or the sentinel for an empty set.
pub open spec fn selector_result_is(
    crons: Seq<CronListResponse>,
    now: LocalDateTime,
    r: LocalDateTime,
) -> bool {
    if crons.len() == 0 {
        r == empty_set_sentinel()
    } else {
        is_minimum_occurrence(crons, now, r) && now.before(r)
    }
}

/// `e` is the error of the first unusable schedule of the set.
pub open spec fn selector_error_reported(
    crons: Seq<CronListResponse>,
    now: LocalDateTime,
    e: ScheduleError,
) -> bool {
    exists|j: int|
        {
            &&& 0 <= j < crons.len()
            &&& !(#[trigger] schedule_usable(crons[j], now))
            &&& forall|k: int| 0 <= k < j ==> #[trigger] schedule_usable(crons[k], now)
            &&& e == evaluation_error_of(crons[j].cron@, now)
        }
}

/// The earliest occurrence, strictly after `now`, among all schedules of
/// the set; for an empty set, the sentinel.
///
/// Fails exactly when some schedule is unusable, with the error of the
/// first unusable one.
pub fn calculate_next_scheduled_time(
    configuration_crontab: &Vec<CronListResponse>,
    now: &LocalDateTime,
) -> (r: Result<LocalDateTime, ScheduleError>)
    requires
        now.wf(),
    ensures
        r is Ok <==> selector_succeeds(configuration_crontab@, *now),
        r is Ok ==> selector_result_is(configuration_crontab@, *now, r->Ok_0) && r->Ok_0.wf(),
        r is Err ==> selector_error_reported(configuration_crontab@, *now, r->Err_0),
{
    let ghost crons = configuration_crontab@;
    if configuration_crontab.len() > 0 {
        let mut lower_date_time = match from_str_to_date_time(
            configuration_crontab[0].cron.as_str(),
            now,
        ) {
            Ok(t) => t,
            Err(e) => {
                assert(!schedule_usable(crons[0], *now));
                return Err(e);
            },
        };
        assert(lower_date_time == next_of(crons[0], *now));
        let mut i: usize = 0;
        while i < configuration_crontab.len()
            invariant
                crons == configuration_crontab@,
                now.wf(),
                i <= crons.len(),
                0 < crons.len(),
                schedule_usable(crons[0], *now),
                forall|k: int| 0 <= k < i ==> #[trigger] schedule_usable(crons[k], *now),
                exists|j: int|
                    0 <= j < crons.len() && lower_date_time == #[trigger] next_of(crons[j], *now),
                forall|k: int|
                    0 <= k < i ==> lower_date_time.before_eq(#[trigger] next_of(crons[k], *now)),
                lower_date_time.before_eq(next_of(crons[0], *now)),
                now.before(lower_date_time),
                lower_date_time.wf(),
            decreases crons.len() - i,
        {
            let processed = match from_str_to_date_time(
                configuration_crontab[i].cron.as_str(),
                now,
            ) {
                Ok(t) => t,
                Err(e) => {
                    assert(!schedule_usable(crons[i as int], *now));
                    return Err(e);
                },
            };
            assert(processed == next_of(crons[i as int], *now));
            if processed.is_before(&lower_date_time) && now.is_before_eq(&processed) {
                lower_date_time = processed;
            }
            i += 1;
        }
        Ok(lower_date_time)
    } else {
        Ok(LocalDateTime { year: 1, month: 1, day: 1, hour: 0, minute: 0, second: 0 })
    }
}

/// The empty-set sentinel never satisfies the arrival-window predicate
/// against any instant a running device can read — whatever the window and
/// whatever the time-zone offset. The alert therefore stays off until a
/// configuration with schedules arrives.
pub proof fn lemma_empty_sentinel_never_buzzes(now: LocalDateTime, window_minutes: u32)
    requires
        now.year >= 2,
    ensures
        !in_arrival_window(empty_set_sentinel(), now, window_minutes),
{
}

/// The selector's minimum depends only on the expression texts: two
/// schedule sets whose expressions agree element by element select the
/// same occurrence, whatever their descriptions or surroundings. In
/// particular, a configuration decoded from a response selects the same
/// occurrence as the response's original expression strings.
pub proof fn lemma_selector_depends_only_on_expressions(
    a: Seq<CronListResponse>,
    b: Seq<CronListResponse>,
    now: LocalDateTime,
    ra: LocalDateTime,
    rb: LocalDateTime,
)
    requires
        a.len() == b.len(),
        forall|j: int| 0 <= j < a.len() ==> a[j].cron@ == #[trigger] b[j].cron@,
        is_minimum_occurrence(a, now, ra),
        is_minimum_occurrence(b, now, rb),
    ensures
        ra == rb,
{
    assert forall|j: int| 0 <= j < a.len() implies #[trigger] next_of(a[j], now) == next_of(
        b[j],
        now,
    ) by {
        assert(a[j].cron@ == b[j].cron@);
    }
    let ja = choose|j: int| 0 <= j < a.len() && ra == #[trigger] next_of(a[j], now);
    let jb = choose|j: int| 0 <= j < b.len() && rb == #[trigger] next_of(b[j], now);
    assert(ra.before_eq(next_of(a[jb], now)));
    assert(rb.before_eq(next_of(b[ja], now)));
    lemma_before_trichotomy(ra, rb);
}

} // verus!
