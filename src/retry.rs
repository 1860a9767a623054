use vstd::prelude::*;
use crate::constants::{DEFAULT_RETRY_ATTEMPTS, DEFAULT_RETRY_DELAY, MAX_RETRY_DELAY};

verus! {

/// How a failing operation is retried: at most `max_attempts` invocations,
/// waiting `initial_delay_ms` before the first retry and doubling the wait
/// after each retry, never beyond `max_delay_ms`.
#[derive(Debug, Clone, Copy, PartialEq, Eq)]
pub struct RetryPolicy {
    pub max_attempts: u32,
    pub initial_delay_ms: u64,
    pub max_delay_ms: u64,
}

/// Where one retrying call stands: how many invocations have failed, and the
/// wait before the next retry.
#[derive(Debug, Clone, Copy, PartialEq, Eq)]
pub struct RetryState {
    pub attempt: u32,
    pub delay_ms: u64,
}

/// What to do after an invocation failed.
#[derive(Debug, Clone, Copy, PartialEq, Eq)]
pub enum RetryStep {
    /// The budget is spent: hand the failure to the caller.
    GiveUp,
    /// Wait this many milliseconds, then invoke the operation again.
    WaitThenRetry(u64),
}

/// The wait that follows a wait of `delay`: twice as long, capped at `max`.
pub open spec fn next_delay(delay: nat, max: nat) -> nat {
    if 2 * delay <= max {
        2 * delay
    } else {
        max
    }
}

/// The wait before retry `k` (counting from zero).
pub open spec fn delay_before_retry(initial: nat, max: nat, k: nat) -> nat
    decreases k,
{
    if k == 0 {
        initial
    } else {
        next_delay(delay_before_retry(initial, max, (k - 1) as nat), max)
    }
}

impl RetryPolicy {
    /// A state that the retry loop can reach.
    pub open spec fn reachable(&self, s: RetryState) -> bool {
        s.attempt == 0 || s.attempt < self.max_attempts
    }

    /// The state and step that follow a failed invocation in state `s`.
    pub open spec fn after_failure(&self, s: RetryState) -> (RetryState, RetryStep) {
        let attempt = s.attempt + 1;
        if attempt >= self.max_attempts {
            (RetryState { attempt: attempt as u32, delay_ms: s.delay_ms }, RetryStep::GiveUp)
        } else {
            (
                RetryState {
                    attempt: attempt as u32,
                    delay_ms: next_delay(s.delay_ms as nat, self.max_delay_ms as nat) as u64,
                },
                RetryStep::WaitThenRetry(s.delay_ms),
            )
        }
    }

    /// Runs an operation that fails `failures` times in a row and then
    /// succeeds, from state `s`: the number of invocations made, and whether
    /// the last one succeeded.
    pub open spec fn outcome(&self, s: RetryState, failures: nat) -> (nat, bool)
        decreases failures,
    {
        if failures == 0 {
            (1, true)
        } else {
            let (next, step) = self.after_failure(s);
            match step {
                RetryStep::GiveUp => (1, false),
                RetryStep::WaitThenRetry(_) => {
                    let (n, ok) = self.outcome(next, (failures - 1) as nat);
                    (n + 1, ok)
                },
            }
        }
    }

    pub fn new(max_attempts: u32, initial_delay_ms: u64, max_delay_ms: u64) -> (r: Self)
        ensures
            r == (RetryPolicy { max_attempts, initial_delay_ms, max_delay_ms }),
    {
        RetryPolicy { max_attempts, initial_delay_ms, max_delay_ms }
    }

    /// Three attempts, waiting one second and then at most ten.
    pub fn standard() -> (r: Self)
        ensures
            r == (RetryPolicy { max_attempts: 3, initial_delay_ms: 1000, max_delay_ms: 10000 }),
    {
        RetryPolicy {
            max_attempts: DEFAULT_RETRY_ATTEMPTS,
            initial_delay_ms: DEFAULT_RETRY_DELAY,
            max_delay_ms: MAX_RETRY_DELAY,
        }
    }

    /// The state at the start of a retrying call: nothing has failed yet, and
    /// the first retry waits the initial delay. The first invocation itself
    /// waits for nothing.
    pub fn start(&self) -> (r: RetryState)
        ensures
            r == (RetryState { attempt: 0, delay_ms: self.initial_delay_ms }),
            self.reachable(r),
    {
        RetryState { attempt: 0, delay_ms: self.initial_delay_ms }
    }

    /// Records a failed invocation and says whether to give up or to wait and
    /// retry; the wait that follows doubles, capped at `max_delay_ms`.
    pub fn on_failure(&self, state: &mut RetryState) -> (r: RetryStep)
        requires
            self.reachable(*old(state)),
        ensures
            (*final(state), r) == self.after_failure(*old(state)),
            r is WaitThenRetry ==> self.reachable(*final(state)),
    {
        let attempt = state.attempt + 1;
        if attempt >= self.max_attempts {
            state.attempt = attempt;
            RetryStep::GiveUp
        } else {
            let wait = state.delay_ms;
            let next = if wait <= self.max_delay_ms / 2 {
                wait * 2
            } else {
                self.max_delay_ms
            };
            state.attempt = attempt;
            state.delay_ms = next;
            RetryStep::WaitThenRetry(wait)
        }
    }
}

/// Against an operation that fails `failures` times and then succeeds, a
/// policy that allows more than `failures` attempts succeeds after exactly
/// `failures + 1` invocations; one that allows at most `failures` stops after
/// exactly `max_attempts` invocations, on the last failure.
pub proof fn lemma_retry_invocations(policy: RetryPolicy, failures: nat)
    requires
        policy.max_attempts >= 1,
    ensures
        policy.outcome(RetryState { attempt: 0, delay_ms: policy.initial_delay_ms }, failures) == (
        if failures < policy.max_attempts {
            (failures + 1, true)
        } else {
            (policy.max_attempts as nat, false)
        }),
{
    lemma_retry_invocations_from(
        policy,
        RetryState { attempt: 0, delay_ms: policy.initial_delay_ms },
        failures,
    );
}

proof fn lemma_retry_invocations_from(policy: RetryPolicy, s: RetryState, failures: nat)
    requires
        s.attempt < policy.max_attempts,
    ensures
        policy.outcome(s, failures) == (if s.attempt + failures < policy.max_attempts {
            (failures + 1, true)
        } else {
            ((policy.max_attempts - s.attempt) as nat, false)
        }),
    decreases failures,
{
    if failures > 0 {
        let (next, step) = policy.after_failure(s);
        if s.attempt + 1 < policy.max_attempts {
            lemma_retry_invocations_from(policy, next, (failures - 1) as nat);
        }
    }
}

/// With an initial delay no longer than the cap, the wait before retry `k` is
/// the initial delay doubled `k` times, capped: it never exceeds the cap.
pub proof fn lemma_backoff_delays(initial: nat, max: nat, k: nat)
    requires
        initial <= max,
    ensures
        delay_before_retry(initial, max, k) == (if initial * vstd::arithmetic::power2::pow2(k)
            <= max {
            initial * vstd::arithmetic::power2::pow2(k)
        } else {
            max
        }),
        delay_before_retry(initial, max, k) <= max,
    decreases k,
{
    vstd::arithmetic::power2::lemma_pow2_unfold(k + 1);
    if k > 0 {
        lemma_backoff_delays(initial, max, (k - 1) as nat);
        vstd::arithmetic::power2::lemma_pow2_unfold(k);
        let p = vstd::arithmetic::power2::pow2((k - 1) as nat);
        assert(initial * (2 * p) == 2 * (initial * p)) by (nonlinear_arith);
    } else {
        vstd::arithmetic::power2::lemma2_to64();
    }
}

/// From a one-second start with a ten-second cap, the waits run
/// 1 s, 2 s, 4 s, 8 s and then stay at 10 s.
pub proof fn lemma_one_to_ten_second_backoff(k: nat)
    ensures
        delay_before_retry(1000, 10000, 0) == 1000,
        delay_before_retry(1000, 10000, 1) == 2000,
        delay_before_retry(1000, 10000, 2) == 4000,
        delay_before_retry(1000, 10000, 3) == 8000,
        k >= 4 ==> delay_before_retry(1000, 10000, k) == 10000,
    decreases k,
{
    reveal_with_fuel(delay_before_retry, 5);
    if k > 4 {
        lemma_one_to_ten_second_backoff((k - 1) as nat);
    }
}

} // verus!
