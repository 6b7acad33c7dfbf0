//! The wait for readiness after a spawn: probe at a fixed interval until a
//! probe reports the model loaded, or until the time bound has passed.
//! The caller keeps the clock and sleeps; this type makes the decisions.
use vstd::prelude::*;
use crate::config::{HEALTH_CHECK_INTERVAL_MS, HEALTH_CHECK_TIMEOUT_SECS};
use crate::probe::{HealthResponse, ProbeFailure, probe_ready, reports_ready};

verus! {

/// What the waiting caller does next.
#[derive(PartialEq, Eq, Structural, Debug, Clone, Copy)]
pub enum WaitAction {
    /// Make one probe now.
    Probe,
    /// Sleep this many milliseconds, then ask again.
    Sleep(u64),
    /// The service is ready: the wait succeeded.
    Ready,
    /// The time bound has passed: the wait failed.
    TimedOut,
}

/// The decision before a probe, `elapsed_ms` after the wait began.
pub open spec fn next_before_probe(timeout_ms: int, elapsed_ms: int) -> WaitAction {
    if elapsed_ms < timeout_ms {
        WaitAction::Probe
    } else {
        WaitAction::TimedOut
    }
}

/// The decision after a probe that did (`ready`) or did not report the model loaded.
pub open spec fn next_after_probe(interval_ms: u64, ready: bool) -> WaitAction {
    if ready {
        WaitAction::Ready
    } else {
        WaitAction::Sleep(interval_ms)
    }
}

/// When round `k` (from 0) begins on a clock that advances one interval per
/// round, probes taking no time.
pub open spec fn round_start(interval_ms: u64, k: int) -> int {
    k * interval_ms
}

/// The state of one readiness wait.
pub struct HealthWait {
    pub timeout_ms: u64,
    pub interval_ms: u64,
    /// Probes made so far (saturating).
    pub attempts: u64,
}

impl HealthWait {
    /// A wait bounded by `timeout_ms` that probes every `interval_ms`.
    pub fn new(timeout_ms: u64, interval_ms: u64) -> (r: Self)
        ensures
            r.timeout_ms == timeout_ms,
            r.interval_ms == interval_ms,
            r.attempts == 0,
    {
        HealthWait { timeout_ms, interval_ms, attempts: 0 }
    }

    /// The wait that a start uses: the configured bound and interval.
    pub fn standard() -> (r: Self)
        ensures
            r.timeout_ms == HEALTH_CHECK_TIMEOUT_SECS * 1000,
            r.interval_ms == HEALTH_CHECK_INTERVAL_MS,
            r.attempts == 0,
    {
        HealthWait::new(HEALTH_CHECK_TIMEOUT_SECS * 1000, HEALTH_CHECK_INTERVAL_MS)
    }

    /// Before an attempt, given the milliseconds elapsed since the wait began:
    /// probe while within the bound, else give up.
    pub fn before_probe(&self, elapsed_ms: u64) -> (r: WaitAction)
        ensures
            r == next_before_probe(self.timeout_ms as int, elapsed_ms as int),
    {
        if elapsed_ms < self.timeout_ms {
            WaitAction::Probe
        } else {
            WaitAction::TimedOut
        }
    }

    /// After an attempt: done when the probe reports the model loaded; else
    /// (no answer, or an answer without the model) sleep one interval.
    pub fn after_probe(&mut self, probe: &Result<HealthResponse, ProbeFailure>) -> (r: WaitAction)
        ensures
            r == next_after_probe(old(self).interval_ms, reports_ready(*probe)),
            final(self).timeout_ms == old(self).timeout_ms,
            final(self).interval_ms == old(self).interval_ms,
            final(self).attempts == (if old(self).attempts < u64::MAX {
                old(self).attempts + 1
            } else {
                old(self).attempts as int
            }),
    {
        if self.attempts < u64::MAX {
            self.attempts = self.attempts + 1;
        }
        if probe_ready(probe) {
            WaitAction::Ready
        } else {
            WaitAction::Sleep(self.interval_ms)
        }
    }
}

/// A wait whose probes never report the model loaded, on a clock that advances
/// one interval per round: a probe is made at the start of each round below the
/// bound and followed by a sleep, and the wait times out at the start of round
/// `ceil(timeout / interval)`, after that many probes.
pub proof fn lemma_never_ready_times_out(timeout_ms: u64, interval_ms: u64)
    requires
        interval_ms > 0,
    ensures
        ({
            let n = (timeout_ms + interval_ms - 1) / interval_ms as int;
            &&& forall|k: int|
                0 <= k < n ==> #[trigger] next_before_probe(
                    timeout_ms as int,
                    round_start(interval_ms, k),
                ) == WaitAction::Probe
            &&& next_after_probe(interval_ms, false) == WaitAction::Sleep(interval_ms)
            &&& next_before_probe(timeout_ms as int, round_start(interval_ms, n))
                == WaitAction::TimedOut
        }),
{
    let t = timeout_ms as int;
    let i = interval_ms as int;
    let n = (t + i - 1) / i;
    let rem = (t + i - 1) % i;
    vstd::arithmetic::div_mod::lemma_fundamental_div_mod(t + i - 1, i);
    assert(0 <= rem < i) by {
        vstd::arithmetic::div_mod::lemma_mod_bound(t + i - 1, i);
    }
    assert(n * i == t + i - 1 - rem) by (nonlinear_arith)
        requires
            t + i - 1 == i * n + rem,
    ;
    assert forall|k: int| 0 <= k < n implies #[trigger] next_before_probe(
        t,
        round_start(interval_ms, k),
    ) == WaitAction::Probe by {
        assert(k * i <= (n - 1) * i) by (nonlinear_arith)
            requires
                k <= n - 1,
                i > 0,
        ;
        assert((n - 1) * i == n * i - i) by (nonlinear_arith);
    }
}

/// A wait whose probes first report the model loaded on probe `m` (from 0),
/// made within the bound on a clock that advances one interval per round: the
/// probes before it are each followed by a sleep, and the wait succeeds right
/// after it, with `m + 1` probes made and none after.
pub proof fn lemma_ready_on_probe(timeout_ms: u64, interval_ms: u64, m: nat)
    requires
        round_start(interval_ms, m as int) < timeout_ms,
    ensures
        forall|k: int|
            0 <= k <= m ==> #[trigger] next_before_probe(
                timeout_ms as int,
                round_start(interval_ms, k),
            ) == WaitAction::Probe,
        next_after_probe(interval_ms, false) == WaitAction::Sleep(interval_ms),
        next_after_probe(interval_ms, true) == WaitAction::Ready,
{
    assert forall|k: int| 0 <= k <= m implies #[trigger] next_before_probe(
        timeout_ms as int,
        round_start(interval_ms, k),
    ) == WaitAction::Probe by {
        assert(k * interval_ms <= m * interval_ms) by (nonlinear_arith)
            requires
                k <= m,
        ;
    }
}

} // verus!
