//! Tri-state health classification with a soft-failure counter.
//!
//! A pluggable health monitor classifies a running process as `Healthy`,
//! `Warning` or `Unhealthy` on every poll tick. `Warning` is a soft failure:
//! it is tolerated for a configurable number of consecutive ticks before it
//! is escalated to a restart. `Healthy` resets the counter; `Unhealthy`
//! escalates immediately.

use vstd::prelude::*;

verus! {

/// Classification of a supervised process's health at one poll tick.
#[derive(Clone, Copy, PartialEq, Eq, Structural, Debug)]
pub enum HealthStatus {
    Healthy,
    Warning,
    Unhealthy,
}

/// Consecutive `Warning` ticks tolerated before a restart is forced.
pub const DEFAULT_WARNING_THRESHOLD: u64 = 10;

/// The counter value after one tick with the given status.
///
/// `Healthy` resets the counter. `Warning` increments it, except that once
/// the counter has already reached the threshold the escalation fires and
/// the counter is reset. `Unhealthy` leaves the counter untouched (the tick
/// escalates on its own).
pub open spec fn next_warning_count(count: u64, threshold: u64, status: HealthStatus) -> u64 {
    match status {
        HealthStatus::Healthy => 0,
        HealthStatus::Warning => if count >= threshold {
            0
        } else {
            (count + 1) as u64
        },
        HealthStatus::Unhealthy => count,
    }
}

/// Whether a tick with the given status counts as healthy.
///
/// A `Warning` tick still counts as healthy while the counter is below the
/// threshold; the tick on which the counter would pass the threshold is the
/// one reported unhealthy.
pub open spec fn tick_is_healthy(count: u64, threshold: u64, status: HealthStatus) -> bool {
    match status {
        HealthStatus::Healthy => true,
        HealthStatus::Warning => count < threshold,
        HealthStatus::Unhealthy => false,
    }
}

/// The counter value after `n` consecutive `Warning` ticks starting from a
/// fresh (zero) counter.
pub open spec fn warning_count_after(threshold: u64, n: nat) -> u64
    decreases n,
{
    if n == 0 {
        0
    } else {
        next_warning_count(warning_count_after(threshold, (n - 1) as nat), threshold, HealthStatus::Warning)
    }
}

/// Counts consecutive soft failures reported by a health monitor and decides,
/// tick by tick, whether the process is still considered healthy.
pub struct HealthTracker {
    warning_count: u64,
    threshold: u64,
}

impl HealthTracker {
    /// The number of consecutive `Warning` ticks seen since the last reset.
    pub closed spec fn warnings(self) -> u64 {
        self.warning_count
    }

    /// The configured escalation threshold.
    pub closed spec fn threshold(self) -> u64 {
        self.threshold
    }

    pub fn new(threshold: u64) -> (tracker: Self)
        ensures
            tracker.warnings() == 0,
            tracker.threshold() == threshold,
    {
        HealthTracker { warning_count: 0, threshold }
    }

    /// A tracker with the default escalation threshold.
    pub fn with_default_threshold() -> (tracker: Self)
        ensures
            tracker.warnings() == 0,
            tracker.threshold() == DEFAULT_WARNING_THRESHOLD,
    {
        HealthTracker::new(DEFAULT_WARNING_THRESHOLD)
    }

    /// Feed one health classification into the counter and report whether the
    /// tick counts as healthy.
    pub fn classify_tick(&mut self, status: HealthStatus) -> (healthy: bool)
        ensures
            final(self).threshold() == old(self).threshold(),
            final(self).warnings() == next_warning_count(old(self).warnings(), old(self).threshold(), status),
            healthy == tick_is_healthy(old(self).warnings(), old(self).threshold(), status),
    {
        match status {
            HealthStatus::Healthy => {
                self.warning_count = 0;
                true
            },
            HealthStatus::Warning => {
                if self.warning_count >= self.threshold {
                    self.warning_count = 0;
                    false
                } else {
                    self.warning_count = self.warning_count + 1;
                    true
                }
            },
            HealthStatus::Unhealthy => false,
        }
    }
}

/// After `n` consecutive `Warning` ticks from a fresh counter, with
/// `n` at most the threshold, the counter stands at exactly `n`.
pub proof fn lemma_warning_count_below_threshold(threshold: u64, n: nat)
    requires
        n <= threshold,
    ensures
        warning_count_after(threshold, n) == n,
    decreases n,
{
    if n > 0 {
        lemma_warning_count_below_threshold(threshold, (n - 1) as nat);
    }
}

/// A run of consecutive `Warning` ticks from a fresh counter is tolerated for
/// exactly `threshold` ticks: every tick up to the threshold still counts as
/// healthy, and the tick right after the threshold is the first unhealthy one,
/// which also resets the counter.
pub proof fn lemma_warning_escalation(threshold: u64, n: nat)
    requires
        1 <= n <= threshold + 1,
    ensures
        n <= threshold ==> tick_is_healthy(
            warning_count_after(threshold, (n - 1) as nat),
            threshold,
            HealthStatus::Warning,
        ),
        n == threshold + 1 ==> !tick_is_healthy(
            warning_count_after(threshold, (n - 1) as nat),
            threshold,
            HealthStatus::Warning,
        ),
        n == threshold + 1 ==> warning_count_after(threshold, n) == 0,
{
    lemma_warning_count_below_threshold(threshold, (n - 1) as nat);
}

/// A `Healthy` tick resets the counter to zero and always counts as healthy,
/// whatever the counter stood at.
pub proof fn lemma_healthy_tick_resets_counter(count: u64, threshold: u64)
    ensures
        next_warning_count(count, threshold, HealthStatus::Healthy) == 0,
        tick_is_healthy(count, threshold, HealthStatus::Healthy),
{
}

} // verus!
