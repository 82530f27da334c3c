//! Reconnect policy of the transport connector.
//!
//! A stream session retries a dropped connection after a delay that starts at
//! `initial_delay_ms`, multiplies by `backoff_factor` after each consecutive
//! failure, and is clamped to `max_delay_ms`; growth is bounded by the cap,
//! never by an attempt count. When `retry_initial` is false and the very
//! first connection attempt fails, no retry happens at all: the error
//! surfaces at once.

use vstd::arithmetic::mul::lemma_mul_inequality;
use vstd::arithmetic::power::lemma_pow0;
use vstd::arithmetic::power::pow;
use vstd::math::min;
use vstd::prelude::*;

verus! {

/// Reconnect behaviour of one stream session.
#[derive(Debug, Clone, Copy, PartialEq, Eq, Structural)]
pub struct ReconnectPolicy {
    /// Whether a failure of the very first connection attempt is retried.
    pub retry_initial: bool,
    /// Delay before the first retry, in milliseconds.
    pub initial_delay_ms: u64,
    /// Factor the delay grows by after each consecutive failure.
    pub backoff_factor: u64,
    /// Cap on the delay, in milliseconds.
    pub max_delay_ms: u64,
}

/// A policy whose delays grow: the factor is at least one.
pub open spec fn policy_wf(p: ReconnectPolicy) -> bool {
    p.backoff_factor >= 1
}

/// The delay before retry attempt `attempt` (counted from 1):
/// `min(initial_delay * backoff_factor^(attempt - 1), max_delay)`.
pub open spec fn spec_delay_ms(p: ReconnectPolicy, attempt: nat) -> int
    recommends
        attempt >= 1,
{
    min(
        p.initial_delay_ms * pow(p.backoff_factor as int, (attempt - 1) as nat),
        p.max_delay_ms as int,
    )
}

/// Growing the clamped delay one step agrees with clamping the unclamped
/// product: the delay recurrence the executable code uses.
proof fn lemma_delay_step(p: ReconnectPolicy, k: nat)
    requires
        policy_wf(p),
        k >= 1,
    ensures
        spec_delay_ms(p, k + 1) == min(
            spec_delay_ms(p, k) * p.backoff_factor,
            p.max_delay_ms as int,
        ),
{
    let f = p.backoff_factor as int;
    let d0 = p.initial_delay_ms as int;
    let m = p.max_delay_ms as int;
    let a = d0 * pow(f, (k - 1) as nat);
    let b = d0 * pow(f, k);
    assert(pow(f, k) == f * pow(f, (k - 1) as nat)) by {
        reveal(pow);
    }
    assert(b == a * f) by (nonlinear_arith)
        requires
            a == d0 * pow(f, (k - 1) as nat),
            b == d0 * (f * pow(f, (k - 1) as nat)),
    ;
    vstd::arithmetic::power::lemma_pow_positive(f, (k - 1) as nat);
    assert(a >= 0) by (nonlinear_arith)
        requires
            d0 >= 0,
            pow(f, (k - 1) as nat) >= 0,
            a == d0 * pow(f, (k - 1) as nat),
    ;
    if a >= m {
        // both sides saturate at the cap
        lemma_mul_inequality(1, f, a);
        lemma_mul_inequality(m, a, f);
        assert(a * 1 == a);
        assert(m * f >= m) by (nonlinear_arith)
            requires
                f >= 1,
                m >= 0,
        ;
    } else {
        lemma_mul_inequality(1, f, a);
        assert(a * 1 == a);
    }
}

/// The computed delay before consecutive-failure attempt `k` equals
/// `min(initial_delay * backoff_factor^(k-1), max_delay)` and is
/// non-decreasing in `k`.
pub proof fn lemma_backoff_monotone(p: ReconnectPolicy, k: nat)
    requires
        policy_wf(p),
        k >= 1,
    ensures
        spec_delay_ms(p, k) <= spec_delay_ms(p, k + 1),
{
    let f = p.backoff_factor as int;
    let m = p.max_delay_ms as int;
    let a = spec_delay_ms(p, k);
    lemma_delay_step(p, k);
    vstd::arithmetic::power::lemma_pow_positive(f, (k - 1) as nat);
    assert(a >= 0) by (nonlinear_arith)
        requires
            p.initial_delay_ms as int >= 0,
            pow(f, (k - 1) as nat) >= 0,
            a == min(p.initial_delay_ms as int * pow(f, (k - 1) as nat), m),
            m >= 0,
    ;
    lemma_mul_inequality(1, f, a);
    assert(a * 1 == a);
}

impl ReconnectPolicy {
    /// The policy the streaming client uses: no retry of the first attempt,
    /// one second initial delay, doubling, one minute cap.
    pub fn default_policy() -> (p: ReconnectPolicy)
        ensures
            p == (ReconnectPolicy {
                retry_initial: false,
                initial_delay_ms: 1000,
                backoff_factor: 2,
                max_delay_ms: 60000,
            }),
            policy_wf(p),
    {
        ReconnectPolicy {
            retry_initial: false,
            initial_delay_ms: 1000,
            backoff_factor: 2,
            max_delay_ms: 60000,
        }
    }

    /// The delay before retry attempt `attempt` (counted from 1).
    pub fn delay_before_attempt(&self, attempt: u64) -> (d: u64)
        requires
            policy_wf(*self),
            attempt >= 1,
        ensures
            d as int == spec_delay_ms(*self, attempt as nat),
    {
        proof {
            lemma_pow0(self.backoff_factor as int);
        }
        let mut d: u64 = if self.initial_delay_ms > self.max_delay_ms {
            self.max_delay_ms
        } else {
            self.initial_delay_ms
        };
        let mut k: u64 = 1;
        while k < attempt
            invariant
                policy_wf(*self),
                1 <= k <= attempt,
                d as int == spec_delay_ms(*self, k as nat),
                d <= self.max_delay_ms,
            decreases attempt - k,
        {
            proof {
                lemma_delay_step(*self, k as nat);
            }
            if d == 0 {
                // zero stays zero under any factor
            } else if self.backoff_factor > self.max_delay_ms / d {
                proof {
                    let dd = d as int;
                    let f = self.backoff_factor as int;
                    let m = self.max_delay_ms as int;
                    assert(dd * f > m) by (nonlinear_arith)
                        requires
                            dd >= 1,
                            f >= m / dd + 1,
                            m >= 0,
                    ;
                }
                d = self.max_delay_ms;
            } else {
                proof {
                    let dd = d as int;
                    let f = self.backoff_factor as int;
                    let m = self.max_delay_ms as int;
                    assert(dd * f <= m) by (nonlinear_arith)
                        requires
                            dd >= 1,
                            f >= 0,
                            f <= m / dd,
                            m >= 0,
                    ;
                }
                let next = d * self.backoff_factor;
                d = if next > self.max_delay_ms {
                    self.max_delay_ms
                } else {
                    next
                };
            }
            k = k + 1;
        }
        d
    }
}

/// State of one stream session's reconnect loop.
#[derive(Debug, Clone, Copy, PartialEq, Eq, Structural)]
pub struct RetryState {
    /// Whether a connection was established at least once in this session.
    pub connected_once: bool,
    /// Consecutive failures since the last established connection.
    pub failures: u64,
}

/// What the session does after a transport failure.
#[derive(Debug, Clone, Copy, PartialEq, Eq, Structural)]
pub enum RetryDecision {
    /// Surface the error to the caller; no retry.
    GiveUp,
    /// Wait this many milliseconds, then attempt to reconnect.
    RetryAfterMs(u64),
}

/// What a transport failure does to the session: a first-attempt failure
/// under `retry_initial = false` gives up at once; any other failure counts
/// itself and schedules a retry after the policy's delay.
pub open spec fn spec_on_failure(p: ReconnectPolicy, st: RetryState) -> (RetryState,
    RetryDecision) {
    if !st.connected_once && !p.retry_initial {
        (st, RetryDecision::GiveUp)
    } else {
        let next = RetryState {
            connected_once: st.connected_once,
            failures: (st.failures + 1) as u64,
        };
        (next, RetryDecision::RetryAfterMs(spec_delay_ms(p, next.failures as nat) as u64))
    }
}

impl RetryState {
    /// The state before the first connection attempt of a session.
    pub fn new() -> (st: Self)
        ensures
            st == (RetryState { connected_once: false, failures: 0 }),
    {
        RetryState { connected_once: false, failures: 0 }
    }

    /// Record an established connection: failures are consecutive, so the
    /// count restarts.
    pub fn on_connected(&mut self)
        ensures
            *final(self) == (RetryState { connected_once: true, failures: 0 }),
    {
        self.connected_once = true;
        self.failures = 0;
    }

    /// Record a transport failure and decide what the session does next.
    pub fn on_failure(&mut self, policy: &ReconnectPolicy) -> (d: RetryDecision)
        requires
            policy_wf(*policy),
            old(self).failures < u64::MAX,
        ensures
            (*final(self), d) == spec_on_failure(*policy, *old(self)),
    {
        if !self.connected_once && !policy.retry_initial {
            RetryDecision::GiveUp
        } else {
            self.failures = self.failures + 1;
            let ms = policy.delay_before_attempt(self.failures);
            proof {
                let a = spec_delay_ms(*policy, self.failures as nat);
                assert(0 <= a <= policy.max_delay_ms as int);
            }
            RetryDecision::RetryAfterMs(ms)
        }
    }
}

/// If the very first connection attempt of a session fails under a policy
/// with `retry_initial = false`, no retry is scheduled: the failure
/// propagates to the caller.
pub proof fn lemma_no_retry_on_first_failure(p: ReconnectPolicy, st: RetryState)
    requires
        !p.retry_initial,
        !st.connected_once,
    ensures
        spec_on_failure(p, st) == (st, RetryDecision::GiveUp),
{
}

} // verus!
