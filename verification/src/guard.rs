//! Connectivity guard and wait-loop decisions.
//!
//! The device's blocking points — waiting for the wireless link to come up
//! and waiting for the time source to report a completed synchronization —
//! are retry loops around driver calls that the library cannot make. The
//! decisions those loops take each round are functions of plain values and
//! are verified here; the caller performs the driver call and the delay,
//! counts the attempts, and asks these functions what to do next.
//!
//! In one-shot mode a loop gives up after a bounded number of rounds, so a
//! caller inside the periodic tick is never stalled indefinitely; in
//! persistent mode it keeps retrying, reporting (but surviving) an attempt
//! count that passes the hard ceiling.

use vstd::prelude::*;

verus! {

/// Rounds a one-shot wait tolerates before giving up on the link.
pub const WIFI_WAIT_ONE_SHOT_CAP: u32 = 5000;

/// Rounds after which a wait for the link is reported as failed.
pub const WIFI_WAIT_HARD_CAP: u32 = 300000;

/// Rounds a one-shot wait tolerates before giving up on the time source.
pub const CLOCK_SYNC_ONE_SHOT_CAP: u32 = 3000;

/// Rounds after which a wait for the time source is reported as failed.
pub const CLOCK_SYNC_HARD_CAP: u32 = 300000;

/// What a wait loop does after one more round.
#[derive(Clone, Copy, Debug, PartialEq, Eq, Structural)]
pub enum WaitDecision {
    /// The awaited condition holds: leave the loop, satisfied.
    Proceed,
    /// Keep waiting: delay once more and re-test the condition.
    Retry,
    /// One-shot cap reached: give up quietly and return to the caller,
    /// which must tolerate the guarded action failing this tick.
    StopQuietly,
    /// Hard ceiling passed: report failure through the error channel.
    ReportFailure,
}

/// The decision of a capped wait loop, `attempts` rounds in.
pub open spec fn wait_decision(
    satisfied: bool,
    one_shot: bool,
    attempts: int,
    one_shot_cap: int,
    hard_cap: int,
) -> WaitDecision {
    if satisfied {
        WaitDecision::Proceed
    } else if one_shot && attempts > one_shot_cap {
        WaitDecision::StopQuietly
    } else if attempts > hard_cap {
        WaitDecision::ReportFailure
    } else {
        WaitDecision::Retry
    }
}

/// One round of the wait for the wireless link inside a connect attempt.
pub fn connect_wait_step(connected: bool, one_shot: bool, attempts: u32) -> (d: WaitDecision)
    ensures
        d == wait_decision(
            connected,
            one_shot,
            attempts as int,
            WIFI_WAIT_ONE_SHOT_CAP as int,
            WIFI_WAIT_HARD_CAP as int,
        ),
        one_shot && attempts > WIFI_WAIT_ONE_SHOT_CAP ==> d != WaitDecision::Retry,
{
    if connected {
        WaitDecision::Proceed
    } else if one_shot && attempts > WIFI_WAIT_ONE_SHOT_CAP {
        WaitDecision::StopQuietly
    } else if attempts > WIFI_WAIT_HARD_CAP {
        WaitDecision::ReportFailure
    } else {
        WaitDecision::Retry
    }
}

/// One round of the wait for the time source to report completion.
pub fn clock_sync_wait_step(completed: bool, one_shot: bool, attempts: u32) -> (d: WaitDecision)
    ensures
        d == wait_decision(
            completed,
            one_shot,
            attempts as int,
            CLOCK_SYNC_ONE_SHOT_CAP as int,
            CLOCK_SYNC_HARD_CAP as int,
        ),
        one_shot && attempts > CLOCK_SYNC_ONE_SHOT_CAP ==> d != WaitDecision::Retry,
{
    if completed {
        WaitDecision::Proceed
    } else if one_shot && attempts > CLOCK_SYNC_ONE_SHOT_CAP {
        WaitDecision::StopQuietly
    } else if attempts > CLOCK_SYNC_HARD_CAP {
        WaitDecision::ReportFailure
    } else {
        WaitDecision::Retry
    }
}

/// Whether the outer connectivity loop runs another round: persistent mode
/// keeps retrying until the link is up; one-shot mode returns to the caller
/// after a single burst, connected or not.
pub fn ensure_connected_again(connected: bool, one_shot: bool) -> (again: bool)
    ensures
        again == (!connected && !one_shot),
{
    !connected && !one_shot
}

/// Whether the boot-time clock-synchronization loop runs another round:
/// persistent mode retries (reconnecting the link in between) until a
/// synchronization attempt succeeds; one-shot mode tries once.
pub fn clock_sync_retry_again(succeeded: bool, one_shot: bool) -> (again: bool)
    ensures
        again == (!succeeded && !one_shot),
{
    !succeeded && !one_shot
}

} // verus!
