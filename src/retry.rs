//! Bounded exponential-backoff retry decisions.
//!
//! A task makes at most `max_attempts` attempts. After each failed attempt
//! the task either waits for the next delay of an exponential schedule and
//! tries again, or gives up with the last error. Every failure counts the
//! same: the policy does not tell transient errors from permanent ones.
use vstd::prelude::*;

verus! {

/// How often and how patiently a task retries.
#[derive(Clone, Copy, Debug, PartialEq, Eq, Structural)]
pub struct RetryPolicy {
    /// Attempts in all, the first included.
    pub max_attempts: u32,
    /// Delay before the first retry, in milliseconds.
    pub base_delay_ms: u64,
    /// Largest delay between later attempts, in milliseconds.
    pub max_delay_ms: u64,
}

impl RetryPolicy {
    pub open spec fn valid(&self) -> bool {
        self.max_attempts >= 1
    }

    /// Five attempts; delays start at one second and double, up to a minute.
    pub fn standard() -> (r: RetryPolicy)
        ensures
            r.valid(),
            r.max_attempts == 5,
            r.base_delay_ms == 1000,
            r.max_delay_ms == 60000,
    {
        RetryPolicy { max_attempts: 5, base_delay_ms: 1000, max_delay_ms: 60000 }
    }
}

/// The delays that an exponential backoff starting at `base_ms`, doubling,
/// and capped at `cap_ms` yields for `count` retries.
pub uninterp spec fn exponential_delays_of(base_ms: u64, cap_ms: u64, count: usize) -> Seq<u64>;

/// Relies on backon's `ExponentialBuilder` (factor 2, no jitter, no total
/// delay) and its `ExponentialBackoff` iterator: it yields exactly
/// `max_times` delays, the first equal to the minimum delay and each later
/// one at most the maximum delay.
#[verifier::external_body]
fn exponential_delays(base_ms: u64, cap_ms: u64, count: usize) -> (r: Vec<u64>)
    ensures
        r@ == exponential_delays_of(base_ms, cap_ms, count),
        r@.len() == count,
        count > 0 ==> r@[0] == base_ms,
        forall|k: int| 1 <= k < r@.len() ==> #[trigger] r@[k] <= cap_ms,
{
    let builder = backon::ExponentialBuilder::default()
        .with_min_delay(std::time::Duration::from_millis(base_ms))
        .with_max_delay(std::time::Duration::from_millis(cap_ms))
        .with_max_times(count);
    backon::BackoffBuilder::build(builder).map(|d| d.as_millis() as u64).collect()
}

/// What to do after a failed attempt.
#[derive(Clone, Copy, Debug, PartialEq, Eq, Structural)]
pub enum RetryDecision {
    /// Wait this long, then attempt again.
    Retry { delay_ms: u64 },
    /// The budget is spent: the last error is the task's outcome.
    GiveUp,
}

/// A policy made concrete: the attempt budget and the delay before each retry.
pub struct Backoff {
    pub max_attempts: u32,
    /// `delays[k]` is the wait after the `k + 1`-th failed attempt.
    pub delays: Vec<u64>,
}

/// The decision after `failed` attempts that all failed.
pub open spec fn decision(max_attempts: nat, delays: Seq<u64>, failed: nat) -> RetryDecision {
    if 1 <= failed < max_attempts && failed <= delays.len() {
        RetryDecision::Retry { delay_ms: delays[failed - 1] }
    } else {
        RetryDecision::GiveUp
    }
}

impl Backoff {
    pub open spec fn wf(&self) -> bool {
        self.max_attempts >= 1 && self.delays@.len() + 1 == self.max_attempts
    }

    /// The schedule of `policy`: one delay for each retry.
    pub fn new(policy: &RetryPolicy) -> (r: Backoff)
        requires
            policy.valid(),
        ensures
            r.wf(),
            r.max_attempts == policy.max_attempts,
            r.delays@ == exponential_delays_of(
                policy.base_delay_ms,
                policy.max_delay_ms,
                (policy.max_attempts - 1) as usize,
            ),
            r.delays@.len() > 0 ==> r.delays@[0] == policy.base_delay_ms,
            forall|k: int| 1 <= k < r.delays@.len() ==> #[trigger] r.delays@[k] <= policy.max_delay_ms,
    {
        let count = (policy.max_attempts - 1) as usize;
        let delays = exponential_delays(policy.base_delay_ms, policy.max_delay_ms, count);
        Backoff { max_attempts: policy.max_attempts, delays }
    }

    /// What to do once `failed` attempts have been made and all failed.
    pub fn after_failure(&self, failed: u32) -> (r: RetryDecision)
        ensures
            r == decision(self.max_attempts as nat, self.delays@, failed as nat),
    {
        if 1 <= failed && failed < self.max_attempts && (failed as usize) <= self.delays.len() {
            RetryDecision::Retry { delay_ms: self.delays[(failed - 1) as usize] }
        } else {
            RetryDecision::GiveUp
        }
    }
}

/// A task's run when attempt `k` (from 0) succeeds exactly when
/// `succeeds(k)`, and `made` attempts have already failed: how many attempts
/// it makes in all, and whether it ends in success.
pub open spec fn run_from(
    max_attempts: nat,
    delays: Seq<u64>,
    succeeds: spec_fn(nat) -> bool,
    made: nat,
) -> (nat, bool)
    decreases max_attempts - made,
{
    if succeeds(made) {
        (made + 1, true)
    } else {
        match decision(max_attempts, delays, made + 1) {
            RetryDecision::Retry { .. } => if made + 1 < max_attempts {
                run_from(max_attempts, delays, succeeds, made + 1)
            } else {
                (made + 1, false)
            },
            RetryDecision::GiveUp => (made + 1, false),
        }
    }
}

/// A whole run of a task under `b`.
pub open spec fn retry_run(b: &Backoff, succeeds: spec_fn(nat) -> bool) -> (nat, bool) {
    run_from(b.max_attempts as nat, b.delays@, succeeds, 0)
}

proof fn lemma_run_from(max_attempts: nat, delays: Seq<u64>, succeeds: spec_fn(nat) -> bool, made: nat)
    requires
        made < max_attempts,
        delays.len() + 1 == max_attempts,
    ensures
        made < run_from(max_attempts, delays, succeeds, made).0 <= max_attempts,
        run_from(max_attempts, delays, succeeds, made).1 <==> succeeds(
            (run_from(max_attempts, delays, succeeds, made).0 - 1) as nat,
        ),
        forall|k: nat| made <= k < run_from(max_attempts, delays, succeeds, made).0 - 1 ==> !#[trigger] succeeds(k),
        !run_from(max_attempts, delays, succeeds, made).1 ==> run_from(max_attempts, delays, succeeds, made).0 == max_attempts,
    decreases max_attempts - made,
{
    if !succeeds(made) && made + 1 < max_attempts {
        lemma_run_from(max_attempts, delays, succeeds, made + 1);
    }
}

/// A task never makes more than its attempt budget; it stops at its first
/// success, every earlier attempt having failed; and it ends in failure only
/// after spending the whole budget.
pub proof fn lemma_retry_bound(b: &Backoff, succeeds: spec_fn(nat) -> bool)
    requires
        b.wf(),
    ensures
        1 <= retry_run(b, succeeds).0 <= b.max_attempts,
        retry_run(b, succeeds).1 <==> succeeds((retry_run(b, succeeds).0 - 1) as nat),
        forall|k: nat| k < retry_run(b, succeeds).0 - 1 ==> !#[trigger] succeeds(k),
        !retry_run(b, succeeds).1 ==> retry_run(b, succeeds).0 == b.max_attempts,
        (forall|k: nat| !#[trigger] succeeds(k)) ==> retry_run(b, succeeds) == (b.max_attempts as nat, false),
{
    lemma_run_from(b.max_attempts as nat, b.delays@, succeeds, 0);
}

/// An attempt that succeeds after two failures ends the run in success with
/// three attempts, whenever the budget allows three.
pub proof fn lemma_success_on_third_attempt(b: &Backoff, succeeds: spec_fn(nat) -> bool)
    requires
        b.wf(),
        b.max_attempts >= 3,
        !succeeds(0),
        !succeeds(1),
        succeeds(2),
    ensures
        retry_run(b, succeeds) == (3nat, true),
{
    let m = b.max_attempts as nat;
    assert(run_from(m, b.delays@, succeeds, 2) == (3nat, true));
    assert(run_from(m, b.delays@, succeeds, 1) == (3nat, true));
}

} // verus!
