//! When a request is sent again.
use vstd::prelude::*;

use crate::retry::base_delay;
use crate::retry::live_step;
use crate::retry::step_after;
use crate::retry::LiveStep;
use crate::retry::Outcome;
use crate::retry::Step;

verus! {

/// A server that is busy or broken is asked again: on each of the first three attempts a status
/// of 429, or of 500 and above, leads to another one, after one, two and four seconds and the
/// jitter.
pub proof fn busy_servers_are_asked_again(attempt: int, status: u16, jitter: int)
    requires
        0 <= attempt < 3,
        status == 429 || status >= 500,
        0 <= jitter < 1000,
    ensures
        step_after(attempt, Outcome::Status(status), jitter) matches Step::RetryAfter(ms) && ms
            == jitter + if attempt == 0 {
            1000int
        } else if attempt == 1 {
            2000
        } else {
            4000
        },
{
    reveal_with_fuel(base_delay, 4);
}

/// So is a server that does not answer, without jitter.
pub proof fn silent_servers_are_asked_again(attempt: int, jitter: int)
    requires
        0 <= attempt < 3,
    ensures
        step_after(attempt, Outcome::NoResponse, jitter) matches Step::RetryAfter(ms) && ms
            == if attempt == 0 {
            1000int
        } else if attempt == 1 {
            2000
        } else {
            4000
        },
{
    reveal_with_fuel(base_delay, 4);
}

/// Every status below 400 is the answer at once, on whichever attempt; every other status is
/// an error at once, or after three attempts where the server was busy or broken; and a server
/// that has not answered four times is given up.
pub proof fn other_outcomes_are_final(attempt: int, status: u16, jitter: int)
    requires
        0 <= attempt,
    ensures
        status < 400 ==> step_after(attempt, Outcome::Status(status), jitter) is Accept,
        400 <= status < 500 && status != 429 ==> step_after(
            attempt,
            Outcome::Status(status),
            jitter,
        ) is Reject,
        attempt >= 3 && status >= 400 ==> step_after(attempt, Outcome::Status(status), jitter)
            is Reject,
        attempt >= 3 ==> step_after(attempt, Outcome::NoResponse, jitter) is GiveUp,
{
}

/// A live upload that failed is tried again up to the hundred-and-twentieth attempt, after
/// thirty seconds; where the status was 401, after logging in again and three seconds. Once a
/// stop is asked for, it is not tried again.
pub proof fn live_failures_are_retried(attempt: int, status: Option<u16>)
    ensures
        live_step(attempt, true, status) is Stop,
        status == Some(401u16) ==> (live_step(attempt, false, status) matches LiveStep::Relogin {
            pause_secs,
            again,
        } && pause_secs == 3 && (again <==> attempt < 120)),
        status != Some(401u16) ==> (live_step(attempt, false, status) matches LiveStep::Wait {
            pause_secs,
            again,
        } && pause_secs == 30 && (again <==> attempt < 120)),
{
}

} // verus!
