//! Rate limits on expensive operations.
use vstd::prelude::*;

verus! {

/// Minimum gap, in seconds, between two manual `POST /api/v1/sync` runs.
pub const MANUAL_SYNC_MIN_INTERVAL_SECS: u64 = 60;

/// Minimum gap, in seconds, between two test notifications.
pub const NOTIFY_TEST_MIN_INTERVAL_SECS: u64 = 60;

/// Enforces a minimum interval between runs of an expensive operation.
/// Times are milliseconds on a monotonic clock. The caller reads the clock
/// and keeps this limiter behind a lock, so that the check and the update
/// happen in one critical section.
pub struct RateGate {
    last_run: Option<u64>,
}

/// Time from `prev` to `now`, zero when `now` is earlier
/// (`Instant::duration_since` saturates).
pub open spec fn elapsed(prev: u64, now: u64) -> int {
    if now >= prev {
        now - prev
    } else {
        0
    }
}

/// Whether a run may start at `now`, given the last recorded run.
pub open spec fn gate_allows(last_run: Option<u64>, now: u64, min_interval: u64) -> bool {
    match last_run {
        Some(prev) => elapsed(prev, now) >= min_interval,
        None => true,
    }
}

impl RateGate {
    /// The time of the last recorded run.
    pub closed spec fn last_run(&self) -> Option<u64> {
        self.last_run
    }

    /// A gate through which no run has passed yet.
    pub fn new() -> (r: Self)
        ensures
            r.last_run() is None,
    {
        RateGate { last_run: None }
    }

    /// Records a run at `now` and returns true, or returns false (recording
    /// nothing) if the last run was less than `min_interval` ago.
    pub fn try_acquire(&mut self, now: u64, min_interval: u64) -> (r: bool)
        ensures
            r == gate_allows(old(self).last_run(), now, min_interval),
            r ==> final(self).last_run() == Some(now),
            !r ==> final(self).last_run() == old(self).last_run(),
    {
        match self.last_run {
            Some(prev) => {
                if now >= prev && now - prev >= min_interval {
                    self.last_run = Some(now);
                    true
                } else if now < prev && min_interval == 0 {
                    self.last_run = Some(now);
                    true
                } else {
                    false
                }
            },
            None => {
                self.last_run = Some(now);
                true
            },
        }
    }
}

impl Default for RateGate {
    fn default() -> (r: Self)
        ensures
            r.last_run() is None,
    {
        RateGate::new()
    }
}

/// The spacing law: once a run passed at `t`, every attempt before
/// `t + min_interval` is refused, and every later attempt is let through.
pub proof fn gate_spacing(t: u64, later: u64, min_interval: u64)
    requires
        min_interval > 0,
    ensures
        gate_allows(Some(t), later, min_interval) <==> later >= t + min_interval,
{
}

/// The first attempt on a fresh gate always passes.
pub proof fn gate_first_run_passes(now: u64, min_interval: u64)
    ensures
        gate_allows(None, now, min_interval),
{
}

} // verus!
