//! Supervisor state machine for one external worker process.
//!
//! A `ProcessWatcher` owns the lifecycle of a single external process: it is
//! started once (starting again while running is a no-op), it supervises the
//! process through periodic health ticks, and it is stopped by triggering an
//! internal shutdown signal and consuming the background task.
//!
//! The asynchronous half — killing stale instances, resolving the binary,
//! spawning through the adapter, awaiting the join handle, sleeping between
//! ticks — belongs to the runtime that embeds this crate. The runtime drives
//! the state machine here: `begin_start` decides whether a spawn may proceed
//! and rearms the internal shutdown signal, `confirm_spawned` records a
//! successful spawn, `evaluate_tick` decides what one poll tick means, and
//! `stop` decides whether a background task has to be awaited.

use vstd::prelude::*;

use crate::health_monitor::HealthStatus;
use crate::health_monitor::HealthTracker;
use crate::health_monitor::next_warning_count;
use crate::health_monitor::tick_is_healthy;

verus! {

/// Snapshot of the three independent cancellation signals a supervision loop
/// races against: the child's own shutdown, the supervisor's internal
/// shutdown, and the application-wide shutdown.
#[derive(Clone, Copy, PartialEq, Eq, Structural, Debug)]
pub struct ShutdownSignals {
    pub child_triggered: bool,
    pub internal_triggered: bool,
    pub app_triggered: bool,
}

impl ShutdownSignals {
    /// Whether any of the three cancellation signals has fired.
    pub open spec fn any_triggered(self) -> bool {
        self.child_triggered || self.internal_triggered || self.app_triggered
    }

    pub fn none_triggered(&self) -> (quiet: bool)
        ensures
            quiet == !self.any_triggered(),
    {
        !self.child_triggered && !self.internal_triggered && !self.app_triggered
    }
}

/// What the supervision loop must do after one poll tick.
#[derive(Clone, Copy, PartialEq, Eq, Structural, Debug)]
pub enum TickAction {
    /// The tick was healthy: keep polling.
    KeepPolling,
    /// The tick was unhealthy and no shutdown has fired: stop the child,
    /// wait out the restart delay, start it again, and wait out the grace
    /// period before polling resumes.
    StopAndRestart,
    /// The tick was unhealthy while a shutdown was already under way: stop
    /// the child and do not restart it.
    StopOnly,
}

/// Default seconds between two health polls.
pub const DEFAULT_POLL_SECS: u64 = 5;

/// Default seconds a single health check may take before it counts as a
/// failed tick.
pub const DEFAULT_HEALTH_TIMEOUT_SECS: u64 = 4;

/// Seconds to wait after a (re)start before health polling begins.
pub const STARTUP_GRACE_SECS: u64 = 10;

/// Seconds to wait between stopping an unhealthy child and restarting it.
pub const RESTART_DELAY_SECS: u64 = 2;

/// The health classification one tick actually gets to process: the monitor's
/// answer if the child was alive and the check came back in time, nothing
/// otherwise. A liveness failure or a timed-out check makes the tick
/// unhealthy without touching the warning counter.
pub open spec fn observed_status(child_alive: bool, health: Option<HealthStatus>) -> Option<
    HealthStatus,
> {
    if child_alive {
        health
    } else {
        None
    }
}

/// The action that follows from a tick's healthiness and the cancellation
/// signals: a healthy tick keeps polling; an unhealthy one stops the child,
/// and restarts it only while no shutdown is under way.
pub open spec fn decide_action(healthy: bool, signals: ShutdownSignals) -> TickAction {
    if healthy {
        TickAction::KeepPolling
    } else if !signals.any_triggered() {
        TickAction::StopAndRestart
    } else {
        TickAction::StopOnly
    }
}

/// One poll tick of the supervision loop: feed the observation into the
/// warning counter and decide what to do with the child.
///
/// `child_alive` is the result of the liveness ping; `health` is the health
/// monitor's answer, or `None` when the check timed out.
pub fn evaluate_tick(
    tracker: &mut HealthTracker,
    child_alive: bool,
    health: Option<HealthStatus>,
    signals: ShutdownSignals,
) -> (action: TickAction)
    ensures
        final(tracker).threshold() == old(tracker).threshold(),
        match observed_status(child_alive, health) {
            Some(status) => {
                &&& final(tracker).warnings() == next_warning_count(
                    old(tracker).warnings(),
                    old(tracker).threshold(),
                    status,
                )
                &&& action == decide_action(
                    tick_is_healthy(old(tracker).warnings(), old(tracker).threshold(), status),
                    signals,
                )
            },
            None => {
                &&& final(tracker).warnings() == old(tracker).warnings()
                &&& action == decide_action(false, signals)
            },
        },
{
    let mut healthy = false;
    if child_alive {
        if let Some(status) = health {
            healthy = tracker.classify_tick(status);
        }
    }
    if healthy {
        TickAction::KeepPolling
    } else if signals.none_triggered() {
        TickAction::StopAndRestart
    } else {
        TickAction::StopOnly
    }
}

/// Per-worker-type strategy: knows the stable name of one kind of external
/// process. The runtime pairs an implementation of this capability with the
/// spawn and kill operations it performs on the OS.
pub trait ProcessAdapter {
    /// Stable identity key of the supervised process, used for logging and
    /// for matching stale instances.
    fn name(&self) -> String;
}

/// Errors a watcher reports to its caller.
#[derive(Clone, Copy, PartialEq, Eq, Structural, Debug)]
pub enum WatcherError {
    /// The background task finished before readiness was confirmed: the
    /// process died early.
    TaskAlreadyFinished,
}

/// Supervisor for one external process, generic over the adapter that knows
/// how to identify that kind of process.
///
/// `task_spawned` models whether a background supervision task currently
/// exists; `task_finished` whether that task has already run to completion.
pub struct ProcessWatcher<A: ProcessAdapter> {
    pub adapter: A,
    task_spawned: bool,
    task_finished: bool,
    internal_shutdown_triggered: bool,
    poll_secs: u64,
    health_timeout_secs: u64,
}

impl<A: ProcessAdapter> ProcessWatcher<A> {
    /// The adapter paired with this watcher.
    pub closed spec fn adapter_spec(self) -> A {
        self.adapter
    }

    /// Whether a background supervision task exists.
    pub closed spec fn task_spawned(self) -> bool {
        self.task_spawned
    }

    /// Whether the background supervision task has run to completion.
    pub closed spec fn task_finished(self) -> bool {
        self.task_finished
    }

    /// Whether the supervisor's internal shutdown signal has been triggered.
    pub closed spec fn internal_shutdown_triggered(self) -> bool {
        self.internal_shutdown_triggered
    }

    /// Seconds between two health polls.
    pub closed spec fn poll_secs(self) -> u64 {
        self.poll_secs
    }

    /// Seconds a health check may take before the tick counts as failed.
    pub closed spec fn health_timeout_secs(self) -> u64 {
        self.health_timeout_secs
    }

    /// The state after `begin_start`, paired with whether the start may
    /// proceed: a watcher with a live task is left untouched, one without is
    /// rearmed.
    pub closed spec fn begin_start_spec(self) -> (Self, bool) {
        if self.task_spawned {
            (self, false)
        } else {
            (Self { internal_shutdown_triggered: false, ..self }, true)
        }
    }

    /// The state after a successful spawn has been confirmed.
    pub closed spec fn confirm_spawned_spec(self) -> Self {
        Self { task_spawned: true, task_finished: false, ..self }
    }

    /// The state after `stop`, paired with whether a background task has to
    /// be awaited.
    pub closed spec fn stop_spec(self) -> (Self, bool) {
        (
            Self { internal_shutdown_triggered: true, task_spawned: false, task_finished: false, ..self },
            self.task_spawned,
        )
    }

    pub fn new(adapter: A) -> (watcher: Self)
        ensures
            !watcher.task_spawned(),
            !watcher.task_finished(),
            !watcher.internal_shutdown_triggered(),
            watcher.poll_secs() == DEFAULT_POLL_SECS,
            watcher.health_timeout_secs() == DEFAULT_HEALTH_TIMEOUT_SECS,
    {
        ProcessWatcher {
            adapter,
            task_spawned: false,
            task_finished: false,
            internal_shutdown_triggered: false,
            poll_secs: DEFAULT_POLL_SECS,
            health_timeout_secs: DEFAULT_HEALTH_TIMEOUT_SECS,
        }
    }

    /// Gate at the head of `start`: starting a watcher that already has a
    /// background task is a no-op (the runtime logs a warning and reports
    /// success). Otherwise the internal shutdown signal is rearmed and the
    /// runtime may kill stale instances, resolve the binary, and spawn.
    pub fn begin_start(&mut self) -> (proceed: bool)
        ensures
            (*final(self), proceed) == old(self).begin_start_spec(),
            proceed == !old(self).task_spawned(),
            old(self).task_spawned() ==> *final(self) == *old(self),
            !old(self).task_spawned() ==> {
                &&& !final(self).task_spawned()
                &&& !final(self).internal_shutdown_triggered()
                &&& final(self).task_finished() == old(self).task_finished()
                &&& final(self).poll_secs() == old(self).poll_secs()
                &&& final(self).health_timeout_secs() == old(self).health_timeout_secs()
                &&& final(self).adapter_spec() == old(self).adapter_spec()
            },
    {
        if self.task_spawned {
            false
        } else {
            self.internal_shutdown_triggered = false;
            true
        }
    }

    /// Record that the adapter's spawn succeeded and a background
    /// supervision task is now running. The runtime must not call this on a
    /// watcher that already has a task; on a failed spawn it calls nothing
    /// and propagates the error.
    pub fn confirm_spawned(&mut self)
        requires
            !old(self).task_spawned(),
        ensures
            *final(self) == old(self).confirm_spawned_spec(),
            final(self).task_spawned(),
            !final(self).task_finished(),
            final(self).internal_shutdown_triggered() == old(self).internal_shutdown_triggered(),
            final(self).poll_secs() == old(self).poll_secs(),
            final(self).health_timeout_secs() == old(self).health_timeout_secs(),
            final(self).adapter_spec() == old(self).adapter_spec(),
    {
        self.task_spawned = true;
        self.task_finished = false;
    }

    /// Record that the background task has been observed to have finished.
    pub fn notify_finished(&mut self)
        requires
            old(self).task_spawned(),
        ensures
            final(self).task_finished(),
            final(self).task_spawned(),
            final(self).internal_shutdown_triggered() == old(self).internal_shutdown_triggered(),
            final(self).poll_secs() == old(self).poll_secs(),
            final(self).health_timeout_secs() == old(self).health_timeout_secs(),
            final(self).adapter_spec() == old(self).adapter_spec(),
    {
        self.task_finished = true;
    }

    /// True exactly when a background task exists and has not finished.
    pub fn is_running(&self) -> (running: bool)
        ensures
            running == (self.task_spawned() && !self.task_finished()),
    {
        self.task_spawned && !self.task_finished
    }

    /// Fails exactly when the background task has already finished — the
    /// process died before readiness was otherwise confirmed. Never blocks:
    /// readiness confirmation is delegated to the health monitor.
    pub fn wait_ready(&self) -> (r: Result<(), WatcherError>)
        ensures
            r is Err <==> (self.task_spawned() && self.task_finished()),
            r is Err ==> r == Result::<(), WatcherError>::Err(WatcherError::TaskAlreadyFinished),
    {
        if self.task_spawned && self.task_finished {
            Err(WatcherError::TaskAlreadyFinished)
        } else {
            Ok(())
        }
    }

    /// Trigger the internal shutdown signal and take the background task out
    /// of the watcher. When `must_await` comes back true the runtime awaits
    /// the task and returns its exit code; otherwise there is nothing to
    /// await and the stop reports exit code 0.
    pub fn stop(&mut self) -> (must_await: bool)
        ensures
            (*final(self), must_await) == old(self).stop_spec(),
            must_await == old(self).task_spawned(),
            final(self).internal_shutdown_triggered(),
            !final(self).task_spawned(),
            !final(self).task_finished(),
            final(self).poll_secs() == old(self).poll_secs(),
            final(self).health_timeout_secs() == old(self).health_timeout_secs(),
            final(self).adapter_spec() == old(self).adapter_spec(),
    {
        self.internal_shutdown_triggered = true;
        let had_task = self.task_spawned;
        self.task_spawned = false;
        self.task_finished = false;
        had_task
    }
}

/// Starting a running watcher is a no-op: after a start has been confirmed,
/// a second start does not proceed to a spawn and leaves the watcher exactly
/// as it was, so exactly one background task and one child process exist.
pub proof fn lemma_second_start_is_noop<A: ProcessAdapter>(watcher: ProcessWatcher<A>)
    requires
        !watcher.task_spawned(),
    ensures
        ({
            let (started, proceed_first) = watcher.begin_start_spec();
            let confirmed = started.confirm_spawned_spec();
            let (after_second, proceed_second) = confirmed.begin_start_spec();
            proceed_first && !proceed_second && after_second == confirmed
        }),
{
}

/// Stopping twice in a row is safe: the first stop consumes the background
/// task (if any), so the second finds none to await — the runtime reports
/// exit code 0 without blocking — and leaves the watcher unchanged.
pub proof fn lemma_second_stop_is_noop<A: ProcessAdapter>(watcher: ProcessWatcher<A>)
    ensures
        ({
            let (stopped_once, must_await_first) = watcher.stop_spec();
            let (stopped_twice, must_await_second) = stopped_once.stop_spec();
            !must_await_second && stopped_twice == stopped_once
        }),
{
}

} // verus!
