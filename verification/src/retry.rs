//! When a request is sent again, and when it is given up.
use vstd::prelude::*;
use vstd::string::*;

use crate::numbers::decimal;
use crate::numbers::push_i64;
use crate::outside::random_below;
use crate::text::text_option;

verus! {

/// How often a request is sent again.
pub const MAX_RETRIES: u32 = 3;

/// The first pause, in milliseconds; it doubles with every attempt.
pub const RETRY_BASE_DELAY_MS: u64 = 1000;

/// What came back from sending a request.
#[derive(Clone, Copy)]
pub enum Outcome {
    /// A response with this status.
    Status(u16),
    /// No response at all.
    NoResponse,
}

/// What to do about it.
#[derive(Clone, Copy)]
pub enum Step {
    /// The response is the answer.
    Accept,
    /// Send again after so many milliseconds.
    RetryAfter(u64),
    /// The response is an error, and the answer.
    Reject,
    /// There is no answer.
    GiveUp,
}

/// The server was busy or broken, so that trying again may help.
pub open spec fn is_transient(status: u16) -> bool {
    status == 429 || status >= 500
}

/// The pause before attempt `attempt + 1`, without jitter.
pub open spec fn base_delay(attempt: nat) -> int
    decreases attempt,
{
    if attempt == 0 {
        RETRY_BASE_DELAY_MS as int
    } else {
        2 * base_delay((attempt - 1) as nat)
    }
}

/// What follows attempt number `attempt`, counted from zero.
pub open spec fn step_after(attempt: int, outcome: Outcome, jitter: int) -> Step {
    match outcome {
        Outcome::Status(s) => if s < 400 {
            Step::Accept
        } else if is_transient(s) && attempt < MAX_RETRIES {
            Step::RetryAfter((base_delay(attempt as nat) + jitter) as u64)
        } else {
            Step::Reject
        },
        Outcome::NoResponse => if attempt < MAX_RETRIES {
            Step::RetryAfter(base_delay(attempt as nat) as u64)
        } else {
            Step::GiveUp
        },
    }
}

fn delay_ms(attempt: u32) -> (r: u64)
    requires
        attempt < MAX_RETRIES,
    ensures
        r == base_delay(attempt as nat),
        r <= 4000,
{
    proof {
        reveal_with_fuel(base_delay, 4);
    }
    if attempt == 0 {
        RETRY_BASE_DELAY_MS
    } else if attempt == 1 {
        2 * RETRY_BASE_DELAY_MS
    } else {
        4 * RETRY_BASE_DELAY_MS
    }
}

/// What follows attempt number `attempt`, counted from zero: responses below 400 are
/// accepted, 429 and the 5xx are tried again with doubling pauses and jitter, and so is a
/// request that got no response, without jitter.
pub fn after_attempt(attempt: u32, outcome: Outcome, jitter: u64) -> (r: Step)
    requires
        jitter < 1000,
    ensures
        r == step_after(attempt as int, outcome, jitter as int),
{
    match outcome {
        Outcome::Status(s) => {
            if s < 400 {
                Step::Accept
            } else if (s == 429 || s >= 500) && attempt < MAX_RETRIES {
                Step::RetryAfter(delay_ms(attempt) + jitter)
            } else {
                Step::Reject
            }
        },
        Outcome::NoResponse => {
            if attempt < MAX_RETRIES {
                Step::RetryAfter(delay_ms(attempt))
            } else {
                Step::GiveUp
            }
        },
    }
}

/// What follows attempt number `attempt`, with a random jitter below one second.
pub fn next_step(attempt: u32, outcome: Outcome) -> (r: Step)
    ensures
        exists|jitter: int|
            0 <= jitter < 1000 && r == #[trigger] step_after(attempt as int, outcome, jitter),
{
    let jitter: u64 = random_below(1000);
    let r = after_attempt(attempt, outcome, jitter);
    assert(r == step_after(attempt as int, outcome, jitter as int));
    r
}

/// What a request has come to on one attempt, and the jitter that was drawn for it.
pub type Attempt = (Outcome, int);

/// How often a request is sent, and what its answer is, if the attempts from number `from` on
/// come to these outcomes: it is sent until an outcome is not followed by another attempt.
/// `None` where the outcomes run out before.
pub open spec fn sent(from: int, attempts: Seq<Attempt>) -> Option<(int, Outcome)>
    decreases attempts.len(),
{
    if attempts.len() == 0 {
        None
    } else if step_after(from, attempts[0].0, attempts[0].1) is RetryAfter {
        match sent(from + 1, attempts.drop_first()) {
            Some((n, answer)) => Some((n + 1, answer)),
            None => None,
        }
    } else {
        Some((1, attempts[0].0))
    }
}

/// Another attempt may help: the server was busy or broken, or did not answer.
pub open spec fn may_help(outcome: Outcome) -> bool {
    match outcome {
        Outcome::Status(s) => is_transient(s),
        Outcome::NoResponse => true,
    }
}

proof fn sent_from(from: int, attempts: Seq<Attempt>)
    requires
        0 <= from <= MAX_RETRIES,
        attempts.len() > MAX_RETRIES - from,
    ensures
        ({
            let (n, answer) = sent(from, attempts)->Some_0;
            &&& sent(from, attempts) is Some
            &&& 1 <= n <= MAX_RETRIES - from + 1
            &&& answer == attempts[n - 1].0
            &&& may_help(answer) ==> n == MAX_RETRIES - from + 1
            &&& forall|i: int| 0 <= i < n - 1 ==> may_help((#[trigger] attempts[i]).0)
        }),
    decreases attempts.len(),
{
    if step_after(from, attempts[0].0, attempts[0].1) is RetryAfter {
        let rest = attempts.drop_first();
        sent_from(from + 1, rest);
        let (n, answer) = sent(from + 1, rest)->Some_0;
        assert(rest[n - 1] == attempts[n]);
        assert forall|i: int| 0 <= i < n implies may_help((#[trigger] attempts[i]).0) by {
            if i > 0 {
                assert(rest[i - 1] == attempts[i]);
            }
        }
    }
}

/// A request is sent at most `MAX_RETRIES + 1` times. Its answer is the first outcome that
/// another attempt would not help, or else the last of them all.
pub proof fn retries_end(attempts: Seq<Attempt>)
    requires
        attempts.len() > MAX_RETRIES,
    ensures
        sent(0, attempts) is Some,
        ({
            let (n, answer) = sent(0, attempts)->Some_0;
            &&& 1 <= n <= MAX_RETRIES + 1
            &&& answer == attempts[n - 1].0
            &&& may_help(answer) ==> n == MAX_RETRIES + 1
            &&& forall|i: int| 0 <= i < n - 1 ==> may_help((#[trigger] attempts[i]).0)
        }),
{
    sent_from(0, attempts);
}

/// Every pause before another attempt lasts from one to less than five seconds.
pub proof fn pauses_are_short(attempt: int, outcome: Outcome, jitter: int)
    requires
        0 <= attempt,
        0 <= jitter < 1000,
    ensures
        step_after(attempt, outcome, jitter) matches Step::RetryAfter(ms) ==> 1000 <= ms < 5000,
{
    reveal_with_fuel(base_delay, 4);
}

/// No response below 400 is ever sent for again, and no other client error but 429.
pub proof fn only_transient_errors_retried(attempt: int, status: u16, jitter: int)
    requires
        step_after(attempt, Outcome::Status(status), jitter) is RetryAfter,
    ensures
        status == 429 || status >= 500,
{
}

/// How often a live upload is tried.
pub const LIVE_RETRY_MAX: u32 = 120;

/// The pause after a live upload that failed, in seconds.
pub const LIVE_RETRY_DELAY_SECS: u64 = 30;

/// The pause after logging in again, in seconds.
pub const RELOGIN_DELAY_SECS: u64 = 3;

/// What to do about a live upload that failed.
#[derive(Clone, Copy)]
pub enum LiveStep {
    /// A stop was asked for: the failure is the answer.
    Stop,
    /// The session has expired: log in again, pause so many seconds and, if `again`, retry.
    Relogin { pause_secs: u64, again: bool },
    /// Pause so many seconds and, if `again`, retry.
    Wait { pause_secs: u64, again: bool },
}

/// What follows the failure of attempt number `attempt`, counted from one. A root cause of
/// HTTP status 401 says that the session has expired.
pub open spec fn live_step(attempt: int, cancelled: bool, status: Option<u16>) -> LiveStep {
    let again = attempt < LIVE_RETRY_MAX;
    if cancelled {
        LiveStep::Stop
    } else if status == Some(401u16) {
        LiveStep::Relogin { pause_secs: RELOGIN_DELAY_SECS, again }
    } else {
        LiveStep::Wait { pause_secs: LIVE_RETRY_DELAY_SECS, again }
    }
}

/// What follows the failure of attempt number `attempt`, counted from one.
pub fn after_live_failure(attempt: u32, cancelled: bool, status: Option<u16>) -> (r: LiveStep)
    ensures
        r == live_step(attempt as int, cancelled, status),
{
    let again = attempt < LIVE_RETRY_MAX;
    let unauthorized = match status {
        Some(s) => s == 401,
        None => false,
    };
    if cancelled {
        LiveStep::Stop
    } else if unauthorized {
        LiveStep::Relogin { pause_secs: RELOGIN_DELAY_SECS, again }
    } else {
        LiveStep::Wait { pause_secs: LIVE_RETRY_DELAY_SECS, again }
    }
}

/// How often a live upload is tried, from attempt number `from` on, while attempts fail one
/// after the other with these statuses and no stop is asked for; the attempt after the last of
/// them succeeds.
pub open spec fn live_tries(from: int, statuses: Seq<Option<u16>>) -> int
    decreases statuses.len(),
{
    if statuses.len() == 0 {
        1
    } else {
        match live_step(from, false, statuses[0]) {
            LiveStep::Relogin { again: true, .. } | LiveStep::Wait { again: true, .. } => 1
                + live_tries(from + 1, statuses.drop_first()),
            _ => 1,
        }
    }
}

proof fn live_tries_from(from: int, statuses: Seq<Option<u16>>)
    requires
        1 <= from <= LIVE_RETRY_MAX,
    ensures
        live_tries(from, statuses) == if statuses.len() < LIVE_RETRY_MAX - from {
            statuses.len() as int + 1
        } else {
            LIVE_RETRY_MAX - from + 1
        },
    decreases statuses.len(),
{
    if statuses.len() > 0 && from < LIVE_RETRY_MAX {
        live_tries_from(from + 1, statuses.drop_first());
    }
}

/// A live upload is tried until an attempt succeeds, and at most `LIVE_RETRY_MAX` times:
/// exactly so often where at least that many attempts fail, whatever they fail with.
pub proof fn live_tries_end(statuses: Seq<Option<u16>>)
    ensures
        1 <= live_tries(1, statuses) <= LIVE_RETRY_MAX,
        statuses.len() < LIVE_RETRY_MAX ==> live_tries(1, statuses) == statuses.len() + 1,
        statuses.len() >= LIVE_RETRY_MAX ==> live_tries(1, statuses) == LIVE_RETRY_MAX,
{
    live_tries_from(1, statuses);
}

/// How long a live upload pauses in all, in seconds, while attempts `from..` fail one after
/// the other with these statuses.
pub open spec fn live_pauses(from: int, statuses: Seq<Option<u16>>) -> int
    decreases statuses.len(),
{
    if statuses.len() == 0 {
        0
    } else {
        match live_step(from, false, statuses[0]) {
            LiveStep::Stop => 0,
            LiveStep::Relogin { pause_secs, again } => pause_secs + if again {
                live_pauses(from + 1, statuses.drop_first())
            } else {
                0
            },
            LiveStep::Wait { pause_secs, again } => pause_secs + if again {
                live_pauses(from + 1, statuses.drop_first())
            } else {
                0
            },
        }
    }
}

/// Live uploads are retried for up to an hour: however the attempts fail, the pauses add up
/// to no more than that, and they add up to exactly an hour where each of the attempts
/// fails for another reason than an expired session.
pub proof fn live_retries_within_an_hour(statuses: Seq<Option<u16>>)
    ensures
        live_pauses(1, statuses) <= 3600,
        statuses.len() >= LIVE_RETRY_MAX && (forall|i: int|
            0 <= i < statuses.len() ==> statuses[i] != Some(401u16)) ==> live_pauses(1, statuses)
            == 3600,
{
    live_pauses_bound(1, statuses);
}

proof fn live_pauses_bound(from: int, statuses: Seq<Option<u16>>)
    requires
        1 <= from <= LIVE_RETRY_MAX,
    ensures
        live_pauses(from, statuses) <= 30 * (LIVE_RETRY_MAX - from + 1),
        statuses.len() >= LIVE_RETRY_MAX - from + 1 && (forall|i: int|
            0 <= i < statuses.len() ==> statuses[i] != Some(401u16)) ==> live_pauses(
            from,
            statuses,
        ) == 30 * (LIVE_RETRY_MAX - from + 1),
    decreases statuses.len(),
{
    if statuses.len() > 0 && from < LIVE_RETRY_MAX {
        let t = statuses.drop_first();
        live_pauses_bound(from + 1, t);
        if forall|i: int| 0 <= i < statuses.len() ==> statuses[i] != Some(401u16) {
            assert forall|i: int| 0 <= i < t.len() implies t[i] != Some(401u16) by {
                assert(t[i] == statuses[i + 1]);
            }
        }
    }
}

/// A status that a request failed with.
#[derive(Debug)]
pub struct HttpStatus(pub u16);

impl HttpStatus {
    /// The status as people read it: `HTTP 404`.
    pub fn describe(&self) -> (r: String)
        ensures
            r@ == "HTTP "@ + decimal(self.0 as int),
    {
        let mut out = "HTTP ".to_owned();
        push_i64(&mut out, self.0 as i64);
        out
    }
}

/// The message that ends an upload after its last attempt.
pub fn gave_up_message() -> (r: String)
    ensures
        r@ == "upload failed, giving up after "@ + decimal(LIVE_RETRY_MAX as int) + " attempts"@,
{
    let mut out = "upload failed, giving up after ".to_owned();
    push_i64(&mut out, LIVE_RETRY_MAX as i64);
    out.append(" attempts");
    out
}

/// What is said when the session had expired: whether logging in again went well, or why not.
pub open spec fn relogin_text(attempt: int, failure: Option<Seq<char>>) -> Seq<char> {
    match failure {
        None => "Session expired \u{2014} logged in again (attempt "@ + decimal(attempt) + ")"@,
        Some(reason) => "Session expired, re-login failed (attempt "@ + decimal(attempt) + "): "@
            + reason,
    }
}

/// What is said when the session had expired: whether logging in again went well, or why not.
pub fn relogin_message(attempt: u32, failure: Option<String>) -> (r: String)
    ensures
        r@ == relogin_text(attempt as int, text_option(failure)),
{
    match failure {
        None => {
            let mut out = "Session expired \u{2014} logged in again (attempt ".to_owned();
            push_i64(&mut out, attempt as i64);
            out.append(")");
            out
        },
        Some(reason) => {
            let mut out = "Session expired, re-login failed (attempt ".to_owned();
            push_i64(&mut out, attempt as i64);
            out.append("): ");
            out.append(&reason);
            out
        },
    }
}

/// What is said when a live upload has failed.
pub fn upload_failed_message(attempt: u32, reason: &str) -> (r: String)
    ensures
        r@ == "Upload failed (attempt "@ + decimal(attempt as int) + "): "@ + reason@,
{
    let mut out = "Upload failed (attempt ".to_owned();
    push_i64(&mut out, attempt as i64);
    out.append("): ");
    out.append(reason);
    out
}

} // verus!
