use process_orchestrator::health_monitor::HealthStatus;
use process_orchestrator::health_monitor::HealthTracker;
use process_orchestrator::health_monitor::DEFAULT_WARNING_THRESHOLD;
use process_orchestrator::process_watcher::evaluate_tick;
use process_orchestrator::process_watcher::ProcessAdapter;
use process_orchestrator::process_watcher::ProcessWatcher;
use process_orchestrator::process_watcher::ShutdownSignals;
use process_orchestrator::process_watcher::TickAction;
use process_orchestrator::process_watcher::WatcherError;

struct TestAdapter;

impl ProcessAdapter for TestAdapter {
    fn name(&self) -> String {
        "test-worker".to_string()
    }
}

fn quiet() -> ShutdownSignals {
    ShutdownSignals { child_triggered: false, internal_triggered: false, app_triggered: false }
}

#[test]
fn warning_restarts_only_after_the_eleventh_tick() {
    let mut tracker = HealthTracker::with_default_threshold();
    assert_eq!(DEFAULT_WARNING_THRESHOLD, 10);
    // Ticks 1 through 10: Warning is tolerated, the loop keeps polling.
    for tick in 1..=10 {
        let action = evaluate_tick(&mut tracker, true, Some(HealthStatus::Warning), quiet());
        assert_eq!(action, TickAction::KeepPolling, "tick {tick} should still be tolerated");
    }
    // Tick 11: the threshold is passed, the child is stopped and restarted.
    let action = evaluate_tick(&mut tracker, true, Some(HealthStatus::Warning), quiet());
    assert_eq!(action, TickAction::StopAndRestart);
    // The counter was reset by the escalation: ten more Warning ticks pass.
    for _ in 1..=10 {
        let action = evaluate_tick(&mut tracker, true, Some(HealthStatus::Warning), quiet());
        assert_eq!(action, TickAction::KeepPolling);
    }
    assert_eq!(
        evaluate_tick(&mut tracker, true, Some(HealthStatus::Warning), quiet()),
        TickAction::StopAndRestart
    );
}

#[test]
fn healthy_tick_resets_the_warning_counter() {
    let mut tracker = HealthTracker::with_default_threshold();
    for _ in 1..=9 {
        evaluate_tick(&mut tracker, true, Some(HealthStatus::Warning), quiet());
    }
    // A single Healthy tick resets the run.
    let action = evaluate_tick(&mut tracker, true, Some(HealthStatus::Healthy), quiet());
    assert_eq!(action, TickAction::KeepPolling);
    // A full tolerance window is available again.
    for _ in 1..=10 {
        let action = evaluate_tick(&mut tracker, true, Some(HealthStatus::Warning), quiet());
        assert_eq!(action, TickAction::KeepPolling);
    }
    assert_eq!(
        evaluate_tick(&mut tracker, true, Some(HealthStatus::Warning), quiet()),
        TickAction::StopAndRestart
    );
}

#[test]
fn unhealthy_and_dead_children_escalate_immediately() {
    let mut tracker = HealthTracker::with_default_threshold();
    assert_eq!(
        evaluate_tick(&mut tracker, true, Some(HealthStatus::Unhealthy), quiet()),
        TickAction::StopAndRestart
    );
    // A liveness failure escalates without consulting the monitor.
    assert_eq!(
        evaluate_tick(&mut tracker, false, Some(HealthStatus::Healthy), quiet()),
        TickAction::StopAndRestart
    );
    // A timed-out health check (no classification) escalates this tick.
    assert_eq!(
        evaluate_tick(&mut tracker, true, None, quiet()),
        TickAction::StopAndRestart
    );
}

#[test]
fn shutdown_suppresses_the_restart() {
    let mut tracker = HealthTracker::with_default_threshold();
    let signals = ShutdownSignals {
        child_triggered: false,
        internal_triggered: true,
        app_triggered: false,
    };
    assert_eq!(
        evaluate_tick(&mut tracker, true, Some(HealthStatus::Unhealthy), signals),
        TickAction::StopOnly
    );
    let app_down = ShutdownSignals {
        child_triggered: false,
        internal_triggered: false,
        app_triggered: true,
    };
    assert_eq!(
        evaluate_tick(&mut tracker, false, None, app_down),
        TickAction::StopOnly
    );
}

#[test]
fn timed_out_check_does_not_advance_the_warning_counter() {
    let mut tracker = HealthTracker::with_default_threshold();
    for _ in 1..=9 {
        evaluate_tick(&mut tracker, true, Some(HealthStatus::Warning), quiet());
    }
    // A timeout is one failed tick but leaves the counter at 9.
    evaluate_tick(&mut tracker, true, None, quiet());
    // So one more Warning is still tolerated before the escalation.
    assert_eq!(
        evaluate_tick(&mut tracker, true, Some(HealthStatus::Warning), quiet()),
        TickAction::KeepPolling
    );
    assert_eq!(
        evaluate_tick(&mut tracker, true, Some(HealthStatus::Warning), quiet()),
        TickAction::StopAndRestart
    );
}

#[test]
fn starting_twice_spawns_exactly_one_task() {
    let mut watcher = ProcessWatcher::new(TestAdapter);
    assert!(!watcher.is_running());

    // First start proceeds and the runtime spawns a task.
    assert!(watcher.begin_start());
    watcher.confirm_spawned();
    assert!(watcher.is_running());

    // Second start: a no-op; the runtime spawns nothing.
    assert!(!watcher.begin_start());
    assert!(watcher.is_running());
}

#[test]
fn stop_after_finished_task_and_double_stop_are_safe() {
    let mut watcher = ProcessWatcher::new(TestAdapter);
    assert!(watcher.begin_start());
    watcher.confirm_spawned();

    // The background task ran to completion on its own.
    watcher.notify_finished();
    assert!(!watcher.is_running());

    // stop still consumes the task without blocking: the runtime awaits a
    // finished handle, which yields immediately.
    assert!(watcher.stop());

    // A second stop finds no task: the runtime reports exit code 0.
    assert!(!watcher.stop());
}

#[test]
fn wait_ready_fails_only_after_the_task_finished() {
    let mut watcher = ProcessWatcher::new(TestAdapter);
    // Not started: nothing has died, readiness is delegated onward.
    assert!(watcher.wait_ready().is_ok());

    assert!(watcher.begin_start());
    watcher.confirm_spawned();
    assert!(watcher.wait_ready().is_ok());

    watcher.notify_finished();
    assert_eq!(watcher.wait_ready(), Err(WatcherError::TaskAlreadyFinished));
}

#[test]
fn watcher_can_be_started_again_after_stop() {
    let mut watcher = ProcessWatcher::new(TestAdapter);
    assert!(watcher.begin_start());
    watcher.confirm_spawned();
    assert!(watcher.stop());
    assert!(!watcher.is_running());

    // The adapter name stays with the watcher across restarts.
    assert_eq!(watcher.adapter.name(), "test-worker");

    assert!(watcher.begin_start());
    watcher.confirm_spawned();
    assert!(watcher.is_running());
}
