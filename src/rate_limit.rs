use vstd::prelude::*;

verus! {

pub const NANOS_PER_SECOND: u64 = 1_000_000_000;

/// Keeps successive calls made through one handle at least `1 s / rate` apart.
/// Times are nanoseconds on one monotonic clock.
pub struct RateLimiter {
    requests_per_second: u32,
    last_request: Option<u64>,
}

/// The smallest gap between two calls at `rate` calls per second, in nanoseconds.
pub open spec fn interval_of(rate: nat) -> nat
    recommends
        rate > 0,
{
    NANOS_PER_SECOND as nat / rate
}

/// How long a call that arrives at `now` waits, when the previous call went
/// through at `last`.
pub open spec fn wait_for(last: Option<u64>, interval: nat, now: nat) -> nat {
    match last {
        None => 0,
        Some(t) => if now >= t && now - t >= interval {
            0
        } else if now >= t {
            (interval - (now - t)) as nat
        } else {
            interval
        },
    }
}

impl RateLimiter {
    pub closed spec fn rate(&self) -> nat {
        self.requests_per_second as nat
    }

    /// When the last call went through, if one did.
    pub closed spec fn last(&self) -> Option<u64> {
        self.last_request
    }

    pub open spec fn interval(&self) -> nat {
        interval_of(self.rate())
    }

    pub open spec fn wf(&self) -> bool {
        self.rate() > 0
    }

    /// A limiter through which no call has gone yet.
    pub fn new(requests_per_second: u32) -> (r: Self)
        requires
            requests_per_second > 0,
        ensures
            r.wf(),
            r.rate() == requests_per_second,
            r.last() is None,
    {
        RateLimiter { requests_per_second, last_request: None }
    }

    /// The smallest gap between two calls, in nanoseconds.
    pub fn min_interval_nanos(&self) -> (r: u64)
        requires
            self.wf(),
        ensures
            r == self.interval(),
    {
        NANOS_PER_SECOND / (self.requests_per_second as u64)
    }

    /// A call arriving at `now`: returns how long it must wait before it goes
    /// through, and records the moment it goes through (`now` plus the wait).
    /// The first call waits for nothing.
    pub fn wait_if_needed(&mut self, now: u64) -> (wait: u64)
        requires
            old(self).wf(),
            now + old(self).interval() <= u64::MAX,
        ensures
            final(self).wf(),
            final(self).rate() == old(self).rate(),
            wait == wait_for(old(self).last(), old(self).interval(), now as nat),
            final(self).last() == Some((now + wait) as u64),
            old(self).last() is None ==> wait == 0,
            old(self).last() is Some && now >= old(self).last()->0 ==> now + wait >= old(
                self,
            ).last()->0 + old(self).interval(),
    {
        let interval = self.min_interval_nanos();
        let wait: u64 = match self.last_request {
            None => 0,
            Some(t) => if now >= t && now - t >= interval {
                0
            } else if now >= t {
                interval - (now - t)
            } else {
                interval
            },
        };
        self.last_request = Some(now + wait);
        wait
    }
}

/// Calls made one after another, each arriving no earlier than the previous
/// one went through, go through at least one interval apart; the first call
/// through a fresh limiter goes through at once.
pub proof fn lemma_calls_spaced(last: Option<u64>, interval: nat, now: nat)
    ensures
        last is None ==> wait_for(last, interval, now) == 0,
        last is Some && now >= last->0 ==> now + wait_for(last, interval, now) >= last->0
            + interval,
{
}

/// At two calls per second, three calls in a row through a fresh limiter
/// span at least one second: the first goes through at once, and each later
/// one, arriving after the one before went through, goes through at least
/// half a second after it.
pub proof fn lemma_three_calls_take_a_second(start: nat, n1: u64, n2: u64, n3: u64)
    requires
        start <= n1 <= n2,
        n2 + wait_for(Some(n1), interval_of(2), n2 as nat) <= u64::MAX,
        n3 >= n2 + wait_for(Some(n1), interval_of(2), n2 as nat),
    ensures
        wait_for(None, interval_of(2), n1 as nat) == 0,
        n2 + wait_for(Some(n1), interval_of(2), n2 as nat) >= n1 + 500_000_000,
        n3 + wait_for(
            Some((n2 + wait_for(Some(n1), interval_of(2), n2 as nat)) as u64),
            interval_of(2),
            n3 as nat,
        ) >= start + NANOS_PER_SECOND,
{
}

} // verus!
