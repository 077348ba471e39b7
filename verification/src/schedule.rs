//! Schedule evaluator: the next occurrence of a cron-style expression.
//!
//! An expression selects recurring instants by second, minute, hour,
//! day-of-month, month, day-of-week and year fields. Parsing and the search
//! for the next matching instant are done by the `cron` crate behind one
//! trusted call; everything downstream of that call is verified against the
//! names `cron_accepts` and `cron_next`.

use vstd::prelude::*;

use crate::datetime::LocalDateTime;
use chrono::{Datelike, TimeZone, Timelike};
use std::str::FromStr;

verus! {

/// Why a schedule evaluation failed.
#[derive(Clone, Copy, Debug, PartialEq, Eq, Structural)]
pub enum ScheduleError {
    /// The expression does not parse. A configuration defect: callers treat
    /// it as fatal, since continuing would silently disable alarms.
    InvalidExpression,
    /// The expression parses but selects no instant after the reference
    /// (its year range lies wholly in the past).
    NoUpcomingOccurrence,
}

/// Whether the cron parser accepts the expression. Depends on the
/// expression text alone.
pub uninterp spec fn cron_accepts(expr: Seq<char>) -> bool;

/// The first instant strictly after `after` that matches the expression,
/// or `None` when the expression selects nothing after it. Depends on the
/// expression text and the reference instant alone.
pub uninterp spec fn cron_next(expr: Seq<char>, after: LocalDateTime) -> Option<LocalDateTime>;

/// The error an evaluation of `expr` after `after` reports when it fails.
pub open spec fn evaluation_error_of(expr: Seq<char>, after: LocalDateTime) -> ScheduleError {
    if !cron_accepts(expr) {
        ScheduleError::InvalidExpression
    } else {
        ScheduleError::NoUpcomingOccurrence
    }
}

/// Relies on `cron::Schedule::from_str` and `cron::Schedule::after`:
/// parsing succeeds or fails on the expression text alone; the iterator's
/// first element is the earliest instant strictly after `after` whose
/// calendar fields match the expression, and is absent exactly when the
/// expression selects no later instant. Its fields are a valid calendar
/// reading (the crate validates years to 1970-2100, days to the month's
/// length). The conversions in the body go through `chrono::Utc`, under
/// which every valid calendar reading is a single real instant.
#[verifier::external_body]
fn cron_next_after(expr: &str, after: &LocalDateTime) -> (r: Result<
    Option<LocalDateTime>,
    ScheduleError,
>)
    requires
        after.wf(),
    ensures
        r is Ok <==> cron_accepts(expr@),
        r is Err ==> r->Err_0 == ScheduleError::InvalidExpression,
        r is Ok ==> r->Ok_0 == cron_next(expr@, *after),
        (r is Ok && r->Ok_0 is Some) ==> r->Ok_0->0.wf() && after.before(r->Ok_0->0),
{
    let schedule = match cron::Schedule::from_str(expr) {
        Ok(s) => s,
        Err(_) => return Err(ScheduleError::InvalidExpression),
    };
    let anchor = chrono::Utc
        .with_ymd_and_hms(after.year, after.month, after.day, after.hour, after.minute, after.second)
        .unwrap();
    Ok(schedule.after(&anchor).next().map(|t| LocalDateTime {
        year: t.year(),
        month: t.month(),
        day: t.day(),
        hour: t.hour(),
        minute: t.minute(),
        second: t.second(),
    }))
}

/// The first occurrence of `cron_string` strictly after `after`.
///
/// Returns `InvalidExpression` exactly when the expression does not parse
/// and `NoUpcomingOccurrence` exactly when it parses but selects no
/// instant after `after`.
pub fn from_str_to_date_time_after(cron_string: &str, after: &LocalDateTime) -> (r: Result<
    LocalDateTime,
    ScheduleError,
>)
    requires
        after.wf(),
    ensures
        r == Err::<LocalDateTime, ScheduleError>(ScheduleError::InvalidExpression)
            <==> !cron_accepts(cron_string@),
        r == Err::<LocalDateTime, ScheduleError>(ScheduleError::NoUpcomingOccurrence)
            <==> cron_accepts(cron_string@) && cron_next(cron_string@, *after) is None,
        r is Ok <==> cron_accepts(cron_string@) && cron_next(cron_string@, *after) is Some,
        r is Ok ==> Some(r->Ok_0) == cron_next(cron_string@, *after),
        r is Ok ==> r->Ok_0.wf() && after.before(r->Ok_0),
        r is Err ==> r->Err_0 == evaluation_error_of(cron_string@, *after),
{
    match cron_next_after(cron_string, after) {
        Err(e) => Err(e),
        Ok(None) => Err(ScheduleError::NoUpcomingOccurrence),
        Ok(Some(t)) => Ok(t),
    }
}

/// The first occurrence of `cron_string` strictly after the current
/// instant, which the caller reads once and passes in as `now`.
pub fn from_str_to_date_time(cron_string: &str, now: &LocalDateTime) -> (r: Result<
    LocalDateTime,
    ScheduleError,
>)
    requires
        now.wf(),
    ensures
        r == Err::<LocalDateTime, ScheduleError>(ScheduleError::InvalidExpression)
            <==> !cron_accepts(cron_string@),
        r == Err::<LocalDateTime, ScheduleError>(ScheduleError::NoUpcomingOccurrence)
            <==> cron_accepts(cron_string@) && cron_next(cron_string@, *now) is None,
        r is Ok <==> cron_accepts(cron_string@) && cron_next(cron_string@, *now) is Some,
        r is Ok ==> Some(r->Ok_0) == cron_next(cron_string@, *now),
        r is Ok ==> r->Ok_0.wf() && now.before(r->Ok_0),
        r is Err ==> r->Err_0 == evaluation_error_of(cron_string@, *now),
{
    from_str_to_date_time_after(cron_string, now)
}

} // verus!
