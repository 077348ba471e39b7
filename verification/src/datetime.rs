//! Calendar instants in a fixed time-zone offset.
//!
//! The library never works with absolute (UTC) time: every instant is the
//! local calendar reading — year, month, day, hour, minute, second — in one
//! fixed offset, and two instants in the same offset are ordered exactly by
//! the lexicographic order of those fields.

use vstd::prelude::*;

verus! {

/// A local calendar instant: date and time-of-day in a fixed offset.
#[derive(Clone, Copy, Debug, PartialEq, Eq, Structural)]
pub struct LocalDateTime {
    pub year: i32,
    pub month: u32,
    pub day: u32,
    pub hour: u32,
    pub minute: u32,
    pub second: u32,
}

/// Gregorian leap-year rule.
pub open spec fn is_leap_year(year: int) -> bool {
    (year % 4 == 0 && year % 100 != 0) || year % 400 == 0
}

/// Number of days of month `month` of year `year` (months are 1-based).
pub open spec fn days_in_month(year: int, month: int) -> int {
    if month == 2 {
        if is_leap_year(year) { 29 } else { 28 }
    } else if month == 4 || month == 6 || month == 9 || month == 11 {
        30
    } else {
        31
    }
}

impl LocalDateTime {
    /// The instant is a real calendar reading: a valid Gregorian date in
    /// years 1 to 9999 and a valid time of day.
    pub open spec fn wf(self) -> bool {
        &&& 1 <= self.year <= 9999
        &&& 1 <= self.month <= 12
        &&& 1 <= self.day <= days_in_month(self.year as int, self.month as int)
        &&& self.hour <= 23
        &&& self.minute <= 59
        &&& self.second <= 59
    }

    /// Strict chronological order of two instants in the same offset:
    /// lexicographic on (year, month, day, hour, minute, second).
    pub open spec fn before(self, other: LocalDateTime) -> bool {
        if self.year != other.year { self.year < other.year }
        else if self.month != other.month { self.month < other.month }
        else if self.day != other.day { self.day < other.day }
        else if self.hour != other.hour { self.hour < other.hour }
        else if self.minute != other.minute { self.minute < other.minute }
        else { self.second < other.second }
    }

    pub open spec fn before_eq(self, other: LocalDateTime) -> bool {
        self.before(other) || self == other
    }

    /// Builds an instant, rejecting anything that is not a real calendar
    /// reading.
    pub fn new(year: i32, month: u32, day: u32, hour: u32, minute: u32, second: u32)
        -> (r: Option<LocalDateTime>)
        ensures
            r is Some <==> (LocalDateTime { year, month, day, hour, minute, second }).wf(),
            r is Some ==> r->0 == (LocalDateTime { year, month, day, hour, minute, second }),
    {
        let candidate = LocalDateTime { year, month, day, hour, minute, second };
        if 1 <= year && year <= 9999
            && 1 <= month && month <= 12
            && 1 <= day && day <= days_in_month_exec(year, month)
            && hour <= 23 && minute <= 59 && second <= 59
        {
            Some(candidate)
        } else {
            None
        }
    }

    /// Strict chronological comparison.
    pub fn is_before(&self, other: &LocalDateTime) -> (r: bool)
        ensures
            r == self.before(*other),
    {
        if self.year != other.year { self.year < other.year }
        else if self.month != other.month { self.month < other.month }
        else if self.day != other.day { self.day < other.day }
        else if self.hour != other.hour { self.hour < other.hour }
        else if self.minute != other.minute { self.minute < other.minute }
        else { self.second < other.second }
    }

    /// Non-strict chronological comparison.
    pub fn is_before_eq(&self, other: &LocalDateTime) -> (r: bool)
        ensures
            r == self.before_eq(*other),
    {
        !other.is_before(self) || self == other
    }
}

/// `before` is a strict total order: exactly one of `a.before(b)`,
/// `a == b`, `b.before(a)` holds.
pub proof fn lemma_before_trichotomy(a: LocalDateTime, b: LocalDateTime)
    ensures
        a.before(b) || a == b || b.before(a),
        a.before(b) ==> !(b.before(a) || a == b),
        (a == b) ==> !(a.before(b) || b.before(a)),
{
}

/// Executable twin of `days_in_month`.
pub fn days_in_month_exec(year: i32, month: u32) -> (r: u32)
    ensures
        r == days_in_month(year as int, month as int),
{
    if month == 2 {
        if (year % 4 == 0 && year % 100 != 0) || year % 400 == 0 { 29 } else { 28 }
    } else if month == 4 || month == 6 || month == 9 || month == 11 {
        30
    } else {
        31
    }
}

/// The calendar date of the day before, with the time of day kept.
pub open spec fn prev_date(t: LocalDateTime) -> LocalDateTime {
    if t.day > 1 {
        LocalDateTime { day: (t.day - 1) as u32, ..t }
    } else if t.month > 1 {
        LocalDateTime {
            month: (t.month - 1) as u32,
            day: days_in_month(t.year as int, t.month - 1) as u32,
            ..t
        }
    } else {
        LocalDateTime { year: (t.year - 1) as i32, month: 12, day: 31, ..t }
    }
}

/// The calendar date of the day after, with the time of day kept.
pub open spec fn next_date(t: LocalDateTime) -> LocalDateTime {
    if t.day < days_in_month(t.year as int, t.month as int) {
        LocalDateTime { day: (t.day + 1) as u32, ..t }
    } else if t.month < 12 {
        LocalDateTime { month: (t.month + 1) as u32, day: 1, ..t }
    } else {
        LocalDateTime { year: (t.year + 1) as i32, month: 1, day: 1, ..t }
    }
}

/// Seconds elapsed since the midnight that began this instant's day.
pub open spec fn second_of_day(t: LocalDateTime) -> int {
    t.hour * 3600 + t.minute * 60 + t.second
}

/// The same date with the time of day set to `s` seconds after midnight.
pub open spec fn with_second_of_day(t: LocalDateTime, s: int) -> LocalDateTime {
    LocalDateTime {
        hour: (s / 3600) as u32,
        minute: ((s % 3600) / 60) as u32,
        second: (s % 60) as u32,
        ..t
    }
}

/// What `minus_seconds` returns: the instant `delta` seconds earlier,
/// borrowing up to two days across midnight.
pub open spec fn shifted_back(t: LocalDateTime, delta: int) -> LocalDateTime {
    let total = second_of_day(t) - delta;
    if total >= 0 {
        with_second_of_day(t, total)
    } else if total >= -86400 {
        with_second_of_day(prev_date(t), total + 86400)
    } else {
        with_second_of_day(prev_date(prev_date(t)), total + 2 * 86400)
    }
}

/// What `plus_seconds` returns: the instant `delta` seconds later,
/// carrying at most one day across midnight.
pub open spec fn shifted_forward(t: LocalDateTime, delta: int) -> LocalDateTime {
    let total = second_of_day(t) + delta;
    if total < 86400 {
        with_second_of_day(t, total)
    } else {
        with_second_of_day(next_date(t), total - 86400)
    }
}

proof fn lemma_with_second_of_day_wf(t: LocalDateTime, s: int)
    requires
        1 <= t.year <= 9999,
        1 <= t.month <= 12,
        1 <= t.day <= days_in_month(t.year as int, t.month as int),
        0 <= s < 86400,
    ensures
        with_second_of_day(t, s).wf(),
        second_of_day(with_second_of_day(t, s)) == s,
{
    assert(0 <= s / 3600 <= 23 && 0 <= (s % 3600) / 60 <= 59 && 0 <= s % 60 <= 59
        && (s / 3600) * 3600 + ((s % 3600) / 60) * 60 + s % 60 == s) by (nonlinear_arith)
        requires 0 <= s < 86400;
}

/// The day before a valid date is a valid date (for years from 2 on).
proof fn lemma_prev_date_wf(t: LocalDateTime)
    requires
        t.wf(),
        t.year >= 2,
    ensures
        t.year - 1 <= prev_date(t).year <= 9999,
        1 <= prev_date(t).month <= 12,
        1 <= prev_date(t).day
            <= days_in_month(prev_date(t).year as int, prev_date(t).month as int),
        prev_date(t).year == t.year || prev_date(t).year == t.year - 1,
{
}

/// The instant `delta` seconds before `t`, on the same fixed offset.
pub fn minus_seconds(t: &LocalDateTime, delta: u32) -> (r: LocalDateTime)
    requires
        t.wf(),
        t.year >= 3,
        delta < 172800,
    ensures
        r == shifted_back(*t, delta as int),
        r.wf(),
{
    proof {
        lemma_prev_date_wf(*t);
        lemma_prev_date_wf(prev_date(*t));
    }
    let sod: u32 = t.hour * 3600 + t.minute * 60 + t.second;
    let (date, total): (LocalDateTime, u32) = if delta <= sod {
        (*t, sod - delta)
    } else if delta <= sod + 86400 {
        (prev_date_exec(t), sod + 86400 - delta)
    } else {
        (prev_date_exec(&prev_date_exec(t)), sod + 2 * 86400 - delta)
    };
    proof {
        lemma_with_second_of_day_wf(date, total as int);
    }
    LocalDateTime {
        hour: total / 3600,
        minute: (total % 3600) / 60,
        second: total % 60,
        ..date
    }
}

/// The instant `delta` seconds after `t`, on the same fixed offset.
pub fn plus_seconds(t: &LocalDateTime, delta: u32) -> (r: LocalDateTime)
    requires
        t.wf(),
        t.year <= 9998,
        delta < 86400,
    ensures
        r == shifted_forward(*t, delta as int),
        r.wf(),
{
    let sod: u32 = t.hour * 3600 + t.minute * 60 + t.second;
    let (date, total): (LocalDateTime, u32) = if sod + delta < 86400 {
        (*t, sod + delta)
    } else {
        (next_date_exec(t), sod + delta - 86400)
    };
    proof {
        lemma_with_second_of_day_wf(date, total as int);
    }
    LocalDateTime {
        hour: total / 3600,
        minute: (total % 3600) / 60,
        second: total % 60,
        ..date
    }
}

/// Executable twin of `prev_date`.
pub fn prev_date_exec(t: &LocalDateTime) -> (r: LocalDateTime)
    requires
        1 <= t.month <= 12,
        t.year >= 2,
    ensures
        r == prev_date(*t),
{
    if t.day > 1 {
        LocalDateTime { day: t.day - 1, ..*t }
    } else if t.month > 1 {
        LocalDateTime { month: t.month - 1, day: days_in_month_exec(t.year, t.month - 1), ..*t }
    } else {
        LocalDateTime { year: t.year - 1, month: 12, day: 31, ..*t }
    }
}

/// Executable twin of `next_date`.
pub fn next_date_exec(t: &LocalDateTime) -> (r: LocalDateTime)
    requires
        1 <= t.month <= 12,
        t.day <= 31,
        t.year <= 9998,
    ensures
        r == next_date(*t),
{
    if t.day < days_in_month_exec(t.year, t.month) {
        LocalDateTime { day: t.day + 1, ..*t }
    } else if t.month < 12 {
        LocalDateTime { month: t.month + 1, day: 1, ..*t }
    } else {
        LocalDateTime { year: t.year + 1, month: 1, day: 1, ..*t }
    }
}

/// Same wall-clock time to the minute: hour and minute agree.
/// Gates the once-per-minute actions.
pub open spec fn same_time_minute(alarm: LocalDateTime, now: LocalDateTime) -> bool {
    alarm.hour == now.hour && alarm.minute == now.minute
}

/// Same wall-clock time to the second: hour, minute and second agree.
/// Gates the once-per-second actions.
pub open spec fn same_time_second(alarm: LocalDateTime, now: LocalDateTime) -> bool {
    alarm.hour == now.hour && alarm.minute == now.minute && alarm.second == now.second
}

/// `now` stands at second `second_number` of its minute.
pub open spec fn at_second(second_number: u32, now: LocalDateTime) -> bool {
    now.second == second_number
}

/// The arrival window of an alarm: same calendar date and hour, and the
/// current minute lies within `window_minutes` at or after the alarm's
/// minute. The window does not cross an hour or day boundary: an alarm
/// whose window would spill past minute 59 is cut off there.
pub open spec fn in_arrival_window(
    alarm: LocalDateTime,
    now: LocalDateTime,
    window_minutes: u32,
) -> bool {
    &&& alarm.year == now.year
    &&& alarm.month == now.month
    &&& alarm.day == now.day
    &&& alarm.hour == now.hour
    &&& alarm.minute <= now.minute
    &&& now.minute - alarm.minute <= window_minutes
}

pub fn is_same_time(alarm: &LocalDateTime, now: &LocalDateTime) -> (r: bool)
    ensures
        r == same_time_minute(*alarm, *now),
{
    alarm.hour == now.hour && now.minute == alarm.minute
}

pub fn is_same_time_sec(alarm: &LocalDateTime, now: &LocalDateTime) -> (r: bool)
    ensures
        r == same_time_second(*alarm, *now),
{
    alarm.hour == now.hour && now.minute == alarm.minute && now.second == alarm.second
}

pub fn is_same_sec(second_number: u32, now: &LocalDateTime) -> (r: bool)
    ensures
        r == at_second(second_number, *now),
{
    now.second == second_number
}

/// The alert condition: `now` lies in the arrival window of `alarm`.
pub fn is_time_to_buzz(alarm: &LocalDateTime, now: &LocalDateTime, window_minutes: u32) -> (r: bool)
    ensures
        r == in_arrival_window(*alarm, *now, window_minutes),
{
    alarm.day == now.day
        && alarm.month == now.month
        && alarm.year == now.year
        && alarm.hour == now.hour
        && now.minute >= alarm.minute
        && now.minute - alarm.minute <= window_minutes
}

} // verus!
