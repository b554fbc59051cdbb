//! Connection establishment: address validation before any network work,
//! and a bounded, capped-doubling retry policy over connection attempts.

use vstd::prelude::*;
use crate::error::{ConductorApiError, ConductorApiResult};

verus! {

/// Whether a string is a well-formed absolute URL, exactly as the `url`
/// parser accepts it.
pub uninterp spec fn url_well_formed(s: Seq<char>) -> bool;

/// Relies on url::Url::parse: it accepts or rejects a string as an
/// absolute URL, deciding on the characters alone.
#[verifier::external_body]
fn check_url(s: &str) -> (r: bool)
    ensures
        r == url_well_formed(s@),
{
    url::Url::parse(s).is_ok()
}

/// Validates a host address before any connection attempt. A malformed
/// address is rejected here, as a terminal validation error carrying the
/// offending address; no attempt is ever made for it.
pub fn validate_address(address: &str) -> (r: ConductorApiResult<()>)
    ensures
        r is Ok <==> url_well_formed(address@),
        r matches Err(e) ==> (e matches ConductorApiError::ValidationError(a) && a@ == address@),
{
    if check_url(address) {
        Ok(())
    } else {
        Err(ConductorApiError::ValidationError(address.to_owned()))
    }
}

/// Default bound on connection attempts.
pub const DEFAULT_MAX_ATTEMPTS: u32 = 5;

/// Default delay before the first retry, in milliseconds.
pub const DEFAULT_BASE_DELAY_MS: u64 = 100;

/// Default cap on the delay between retries, in milliseconds.
pub const DEFAULT_MAX_DELAY_MS: u64 = 5_000;

/// A bounded retry policy: at most `max_attempts` fresh connection
/// attempts, with a delay that doubles from `base_delay_ms` up to the cap
/// `max_delay_ms` between consecutive attempts.
#[derive(Clone, Copy, Debug, PartialEq, Eq, Structural)]
pub struct RetryPolicy {
    pub max_attempts: u32,
    pub base_delay_ms: u64,
    pub max_delay_ms: u64,
}

impl RetryPolicy {
    /// At least one attempt, and a positive starting delay no larger than
    /// the cap.
    pub open spec fn wf(&self) -> bool {
        1 <= self.max_attempts && 1 <= self.base_delay_ms <= self.max_delay_ms
    }

    /// A policy with explicit bounds.
    pub fn new(max_attempts: u32, base_delay_ms: u64, max_delay_ms: u64) -> (r: Self)
        requires
            1 <= max_attempts,
            1 <= base_delay_ms <= max_delay_ms,
        ensures
            r.wf(),
            r == (RetryPolicy { max_attempts, base_delay_ms, max_delay_ms }),
    {
        RetryPolicy { max_attempts, base_delay_ms, max_delay_ms }
    }
}

impl Default for RetryPolicy {
    /// The default policy: a handful of attempts with a capped doubling
    /// delay.
    fn default() -> (r: Self)
        ensures
            r.wf(),
            r == (RetryPolicy {
                max_attempts: DEFAULT_MAX_ATTEMPTS,
                base_delay_ms: DEFAULT_BASE_DELAY_MS,
                max_delay_ms: DEFAULT_MAX_DELAY_MS,
            }),
    {
        RetryPolicy {
            max_attempts: DEFAULT_MAX_ATTEMPTS,
            base_delay_ms: DEFAULT_BASE_DELAY_MS,
            max_delay_ms: DEFAULT_MAX_DELAY_MS,
        }
    }
}

/// The delay before retry number `i`, doubling from `base` and capped at
/// `cap`.
pub open spec fn capped_doubling(base: u64, cap: u64, i: nat) -> u64
    decreases i,
{
    if i == 0 {
        base
    } else {
        let prev = capped_doubling(base, cap, (i - 1) as nat);
        if prev * 2 <= cap {
            (prev * 2) as u64
        } else {
            cap
        }
    }
}

/// Computes the delay, in milliseconds, to wait after failed attempt
/// number `attempt` (counted from zero) before the next one.
pub fn backoff_delay_ms(policy: &RetryPolicy, attempt: u32) -> (r: u64)
    requires
        policy.wf(),
    ensures
        r == capped_doubling(policy.base_delay_ms, policy.max_delay_ms, attempt as nat),
        r <= policy.max_delay_ms,
{
    let mut d: u64 = policy.base_delay_ms;
    let mut j: u32 = 0;
    while j < attempt
        invariant
            j <= attempt,
            policy.wf(),
            d == capped_doubling(policy.base_delay_ms, policy.max_delay_ms, j as nat),
            d <= policy.max_delay_ms,
        decreases attempt - j,
    {
        if d <= policy.max_delay_ms / 2 {
            d = d * 2;
        } else {
            d = policy.max_delay_ms;
        }
        j = j + 1;
    }
    d
}

/// How one connection attempt ended: a ready transport, or a transport
/// error with its message.
#[derive(Clone, Debug, PartialEq, Eq)]
pub enum AttemptOutcome {
    Connected,
    Failed(String),
}

/// What to do after one connection attempt: proceed with the ready
/// transport, retry after a delay, or give up with the last transport
/// error.
#[derive(Clone, Debug, PartialEq, Eq)]
pub enum ConnectDecision {
    Ready,
    RetryAfter { delay_ms: u64 },
    GiveUp { last_error: String },
}

/// Decides what follows connection attempt number `attempts_made`
/// (counted from zero): success proceeds; a failure is retried after the
/// policy's delay while attempts remain, and otherwise surfaces the last
/// transport error. No state is kept between attempts beyond the count.
pub fn connect_step(policy: &RetryPolicy, attempts_made: u32, outcome: &AttemptOutcome) -> (r:
    ConnectDecision)
    requires
        policy.wf(),
        attempts_made < policy.max_attempts,
    ensures
        r is Ready <==> outcome is Connected,
        r is RetryAfter <==> (outcome is Failed && attempts_made + 1 < policy.max_attempts),
        r is GiveUp <==> (outcome is Failed && attempts_made + 1 == policy.max_attempts),
        r matches ConnectDecision::RetryAfter { delay_ms } ==> delay_ms == capped_doubling(
            policy.base_delay_ms,
            policy.max_delay_ms,
            attempts_made as nat,
        ),
        r matches ConnectDecision::GiveUp { last_error } ==> (outcome matches
        AttemptOutcome::Failed(m) && last_error == m),
{
    match outcome {
        AttemptOutcome::Connected => ConnectDecision::Ready,
        AttemptOutcome::Failed(message) => {
            if attempts_made + 1 < policy.max_attempts {
                ConnectDecision::RetryAfter { delay_ms: backoff_delay_ms(policy, attempts_made) }
            } else {
                ConnectDecision::GiveUp { last_error: message.clone() }
            }
        },
    }
}

/// Establishing a connection against a known transcript of attempt
/// outcomes: the connection is ready exactly when some attempt within the
/// policy's budget succeeds, and once the budget is exhausted against a
/// transport that never came up, the last transport error is surfaced.
/// The result on success is the index of the succeeding attempt; every
/// attempt before it failed.
pub fn connect_with_transcript(policy: &RetryPolicy, outcomes: &Vec<AttemptOutcome>) -> (r:
    ConductorApiResult<usize>)
    requires
        policy.wf(),
        outcomes@.len() >= policy.max_attempts,
    ensures
        r is Ok <==> (exists|i: int|
            0 <= i < policy.max_attempts && outcomes@[i] is Connected),
        r matches Ok(i) ==> i < policy.max_attempts && outcomes@[i as int] is Connected && (forall|
            j: int,
        |
            0 <= j < i ==> outcomes@[j] is Failed),
        r matches Err(e) ==> (forall|j: int|
            0 <= j < policy.max_attempts ==> outcomes@[j] is Failed) && (e matches
        ConductorApiError::TransportError(m) && outcomes@[policy.max_attempts - 1] matches
        AttemptOutcome::Failed(f) && m == f),
{
    let max = policy.max_attempts as usize;
    let mut k: usize = 0;
    while k < max
        invariant
            policy.wf(),
            outcomes@.len() >= policy.max_attempts,
            max == policy.max_attempts,
            k < max,
            forall|j: int| 0 <= j < k ==> outcomes@[j] is Failed,
        decreases max - k,
    {
        let decision = connect_step(policy, k as u32, &outcomes[k]);
        match decision {
            ConnectDecision::Ready => {
                return Ok(k);
            },
            ConnectDecision::RetryAfter { .. } => {
                k = k + 1;
            },
            ConnectDecision::GiveUp { last_error } => {
                return Err(ConductorApiError::TransportError(last_error));
            },
        }
    }
    proof {
        assert(false);
    }
    vstd::pervasive::unreached()
}

} // verus!
