//! The retry policy around one upload: a bounded number of attempts, each
//! under a timeout, with a growing, jittered pause between them.

use vstd::prelude::*;
use std::time::Duration;
use tokio_retry::strategy::{jitter, ExponentialBackoff};

verus! {

/// The number of attempts that one upload gets.
pub const MAX_RETRIES: usize = 3;

/// The base of the pauses between attempts, in milliseconds.
pub const RETRY_DELAY_MS: u64 = 5000;

/// The time that one attempt may take, in seconds.
pub const UPLOAD_TIMEOUT_SECONDS: u64 = 300;

/// What is uploaded in one piece.
#[derive(PartialEq, Eq, Structural, Debug, Clone, Copy)]
pub enum UploadTarget {
    File,
    Directory,
}

/// Why one attempt to upload failed.
#[derive(Debug)]
pub enum UploadError {
    /// The path of what was to be uploaded is no text.
    InvalidPath(UploadTarget),
    /// The pinning service refused or failed; the text is its report.
    Remote(String),
    /// The attempt took longer than `UPLOAD_TIMEOUT_SECONDS`.
    Timeout,
}

/// An upload that succeeded, and the number of attempts it took.
#[derive(Debug)]
pub struct UploadResult {
    pub cid: String,
    pub attempts: usize,
}

/// An upload that failed at every attempt, with the error of the last one.
#[derive(Debug)]
pub struct RetriesExhausted {
    pub attempts: usize,
    pub last: UploadError,
}

/// What to do after an attempt.
#[derive(Debug)]
pub enum Decision {
    /// Pause for `delay_ms` milliseconds, then attempt again.
    RetryAfter { delay_ms: u64 },
    /// Stop: the upload succeeded.
    Success(UploadResult),
    /// Stop: no attempt is left.
    Exhausted(RetriesExhausted),
}

/// How far an upload has come: the number of attempts that have ended.
#[derive(Debug, Clone, Copy)]
pub struct RetryState {
    pub attempts: usize,
}

/// `base` to the power `exponent`, capped at the largest 64-bit number after
/// each multiplication.
pub open spec fn saturating_power(base: u64, exponent: nat) -> nat
    decreases exponent,
{
    if exponent == 0 {
        1
    } else {
        let p: nat = saturating_power(base, (exponent - 1) as nat) * (base as nat);
        if p > u64::MAX {
            u64::MAX as nat
        } else {
            p
        }
    }
}

/// The longest pause after the failed attempt number `failed` (counted from
/// one), in milliseconds.
pub open spec fn pause_ceiling(failed: nat) -> nat {
    saturating_power(RETRY_DELAY_MS, failed)
}

/// The report that a failure of the pinning service is recorded with.
pub open spec fn remote_report(reason: Seq<char>) -> Seq<char> {
    "Upload failed: "@ + reason
}

/// The state and decision after an attempt that ended in `outcome`, when
/// `attempts` attempts had ended before it and a pause would take `delay_ms`.
pub open spec fn decision_after(
    attempts: usize,
    outcome: Result<String, UploadError>,
    delay_ms: u64,
) -> (RetryState, Decision) {
    let made = (attempts + 1) as usize;
    match outcome {
        Ok(cid) => (
            RetryState { attempts: made },
            Decision::Success(UploadResult { cid, attempts: made }),
        ),
        Err(e) => if made >= MAX_RETRIES {
            (
                RetryState { attempts: made },
                Decision::Exhausted(RetriesExhausted { attempts: made, last: e }),
            )
        } else {
            (RetryState { attempts: made }, Decision::RetryAfter { delay_ms })
        },
    }
}

/// The first `k` attempts of `outcomes` all failed.
pub open spec fn failed_before(outcomes: Seq<Result<String, UploadError>>, k: int) -> bool {
    forall|i: int| 0 <= i < k ==> (#[trigger] outcomes[i]) is Err
}

/// The `retry`-th delay, counted from zero, of
/// `tokio_retry::strategy::ExponentialBackoff::from_millis(base_ms)`, in
/// milliseconds. The strategy starts at the base and multiplies by it after
/// each delay, saturating; it never ends.
#[verifier::external_body]
fn backoff_delay_ms(base_ms: u64, retry: usize) -> (r: Option<u64>)
    ensures
        r == Some(saturating_power(base_ms, retry as nat + 1) as u64),
{
    let delay: Option<Duration> = ExponentialBackoff::from_millis(base_ms).nth(retry);
    match delay {
        Some(d) => Some(d.as_millis() as u64),
        None => None,
    }
}

/// `tokio_retry::strategy::jitter` on a delay of `delay_ms` milliseconds: the
/// delay times a random factor below one, so never more than the delay. The
/// factor is a float; the claim is made for delays short enough that its
/// rounding stays far below one millisecond.
#[verifier::external_body]
fn jittered_ms(delay_ms: u64) -> (r: u64)
    requires
        delay_ms <= 0xffff_ffff,
    ensures
        r <= delay_ms,
{
    jitter(Duration::from_millis(delay_ms)).as_millis() as u64
}

/// The pauses of the policy: at most five seconds after the first failed
/// attempt, and at most 25 000 seconds after the second.
pub proof fn lemma_pause_ceilings()
    ensures
        pause_ceiling(1) == 5000,
        pause_ceiling(2) == 25000000,
{
    reveal_with_fuel(saturating_power, 4);
}

impl UploadError {
    /// A copy of the error.
    pub fn duplicate(&self) -> (r: UploadError)
        ensures
            r == *self,
    {
        match self {
            UploadError::InvalidPath(t) => UploadError::InvalidPath(*t),
            UploadError::Remote(m) => UploadError::Remote(m.clone()),
            UploadError::Timeout => UploadError::Timeout,
        }
    }

    /// The error in words.
    pub fn message(&self) -> (r: String)
        ensures
            r@ == match *self {
                UploadError::InvalidPath(UploadTarget::File) => "Invalid file path"@,
                UploadError::InvalidPath(UploadTarget::Directory) => "Invalid folder path"@,
                UploadError::Remote(m) => m@,
                UploadError::Timeout => "deadline has elapsed"@,
            },
    {
        match self {
            UploadError::InvalidPath(UploadTarget::File) => String::from_str("Invalid file path"),
            UploadError::InvalidPath(UploadTarget::Directory) => String::from_str(
                "Invalid folder path",
            ),
            UploadError::Remote(m) => m.clone(),
            UploadError::Timeout => String::from_str("deadline has elapsed"),
        }
    }
}

/// The outcome of one attempt, from what the pinning service answered:
/// `None` where the attempt ran out of time, else the content identifier or
/// the service's own words on why it failed.
pub fn classify_attempt(response: Option<Result<String, String>>) -> (r: Result<
    String,
    UploadError,
>)
    ensures
        match response {
            None => r == Err::<String, UploadError>(UploadError::Timeout),
            Some(Ok(cid)) => r == Ok::<String, UploadError>(cid),
            Some(Err(reason)) => r matches Err(UploadError::Remote(m)) && m@ == remote_report(
                reason@,
            ),
        },
{
    match response {
        None => Err(UploadError::Timeout),
        Some(Ok(cid)) => Ok(cid),
        Some(Err(reason)) => {
            let mut m: String = String::from_str("Upload failed: ");
            m.append(reason.as_str());
            Err(UploadError::Remote(m))
        },
    }
}

impl RetryState {
    /// The state before the first attempt.
    pub fn new() -> (s: RetryState)
        ensures
            s.attempts == 0,
    {
        RetryState { attempts: 0 }
    }

    /// Whether another attempt may start.
    pub fn may_attempt(&self) -> (b: bool)
        ensures
            b == (self.attempts < MAX_RETRIES),
    {
        self.attempts < MAX_RETRIES
    }

    /// The state and decision after an attempt that ended in `outcome`, where
    /// a pause before the next attempt would take `delay_ms` milliseconds.
    pub fn decide(self, outcome: Result<String, UploadError>, delay_ms: u64) -> (r: (
        RetryState,
        Decision,
    ))
        requires
            self.attempts < MAX_RETRIES,
        ensures
            r == decision_after(self.attempts, outcome, delay_ms),
            r.0.attempts == self.attempts + 1,
            r.1 is RetryAfter ==> r.0.attempts < MAX_RETRIES,
    {
        let made: usize = self.attempts + 1;
        let next = RetryState { attempts: made };
        match outcome {
            Ok(cid) => (next, Decision::Success(UploadResult { cid, attempts: made })),
            Err(e) => {
                if made >= MAX_RETRIES {
                    (next, Decision::Exhausted(RetriesExhausted { attempts: made, last: e }))
                } else {
                    (next, Decision::RetryAfter { delay_ms })
                }
            },
        }
    }

    /// The pause after the attempt that is under way, should it fail: the
    /// backoff for that attempt, shortened by a random factor.
    pub fn next_pause_ms(&self) -> (delay_ms: u64)
        requires
            self.attempts + 1 < MAX_RETRIES,
        ensures
            delay_ms <= pause_ceiling(self.attempts as nat + 1),
    {
        proof {
            lemma_pause_ceilings();
        }
        match backoff_delay_ms(RETRY_DELAY_MS, self.attempts) {
            Some(ceiling) => jittered_ms(ceiling),
            None => 0,
        }
    }

    /// The state and decision after an attempt that ended in `outcome`. A
    /// pause that it asks for is no longer than the backoff for the attempt.
    pub fn after_attempt(self, outcome: Result<String, UploadError>) -> (r: (
        RetryState,
        Decision,
    ))
        requires
            self.attempts < MAX_RETRIES,
        ensures
            exists|delay_ms: u64|
                delay_ms <= pause_ceiling(self.attempts as nat + 1) && r == decision_after(
                    self.attempts,
                    outcome,
                    delay_ms,
                ),
            r.0.attempts == self.attempts + 1,
            r.1 is RetryAfter ==> r.0.attempts < MAX_RETRIES,
    {
        let delay_ms: u64 = if self.attempts + 1 < MAX_RETRIES {
            self.next_pause_ms()
        } else {
            0
        };
        let r = self.decide(outcome, delay_ms);
        assert(r == decision_after(self.attempts, outcome, delay_ms));
        r
    }
}

/// The longest pause after the failed attempt number `failed` (counted from
/// one), in milliseconds.
pub fn backoff_ceiling_ms(failed: usize) -> (r: u64)
    requires
        1 <= failed < MAX_RETRIES,
    ensures
        r == pause_ceiling(failed as nat),
{
    proof {
        lemma_pause_ceilings();
    }
    match backoff_delay_ms(RETRY_DELAY_MS, failed - 1) {
        Some(ceiling) => ceiling,
        None => 0,
    }
}

/// Runs the policy over the outcomes that the attempts of one upload had, in
/// order, and says how the upload ends: with the first success, if it is
/// among the first `MAX_RETRIES` outcomes; exhausted with the error of
/// attempt number `MAX_RETRIES`, if that many failed; `None` while the
/// outcomes end before either.
pub fn replay(outcomes: &Vec<Result<String, UploadError>>) -> (r: Option<
    Result<UploadResult, RetriesExhausted>,
>)
    ensures
        match r {
            Some(Ok(done)) => {
                &&& 1 <= done.attempts <= MAX_RETRIES
                &&& done.attempts <= outcomes@.len()
                &&& failed_before(outcomes@, done.attempts - 1)
                &&& outcomes@[done.attempts - 1] == Ok::<String, UploadError>(done.cid)
            },
            Some(Err(gave_up)) => {
                &&& gave_up.attempts == MAX_RETRIES
                &&& MAX_RETRIES <= outcomes@.len()
                &&& failed_before(outcomes@, MAX_RETRIES as int)
                &&& outcomes@[MAX_RETRIES - 1] == Err::<String, UploadError>(gave_up.last)
            },
            None => outcomes@.len() < MAX_RETRIES && failed_before(
                outcomes@,
                outcomes@.len() as int,
            ),
        },
{
    let mut state: RetryState = RetryState::new();
    let mut i: usize = 0;
    while i < outcomes.len()
        invariant
            i <= outcomes@.len(),
            state.attempts == i,
            i < MAX_RETRIES,
            failed_before(outcomes@, i as int),
        decreases outcomes@.len() - i,
    {
        let outcome: Result<String, UploadError> = match &outcomes[i] {
            Ok(cid) => Ok(cid.clone()),
            Err(e) => Err(e.duplicate()),
        };
        assert(outcome == outcomes@[i as int]);
        let (next, decision) = state.decide(outcome, 0);
        match decision {
            Decision::Success(done) => {
                return Some(Ok(done));
            },
            Decision::Exhausted(gave_up) => {
                return Some(Err(gave_up));
            },
            Decision::RetryAfter { delay_ms: _ } => {
                state = next;
            },
        }
        i = i + 1;
    }
    None
}

} // verus!
