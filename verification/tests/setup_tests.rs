use process_orchestrator::phase_hardware::should_finalize;
use process_orchestrator::phase_hardware::CoreSetupPhase;
use process_orchestrator::phase_hardware::HardwareSetupPhaseAppConfiguration;
use process_orchestrator::phase_hardware::SetupOutcome;
use process_orchestrator::phase_hardware::SETUP_TIMEOUT_SECS;
use process_orchestrator::setup_manager::SetupManager;
use process_orchestrator::setup_manager::SetupPhase;

#[test]
fn core_completion_spawns_batch_one_only() {
    let mut manager = SetupManager::new();
    // Core completes: batch 1 must be spawned…
    assert!(manager.set_phase_status(SetupPhase::Core, true));
    // …but neither the batch-2 gate nor the final gate is open.
    assert!(!manager.phase_status(SetupPhase::Wallet));
    assert!(!manager.phase_status(SetupPhase::Unknown));
    assert!(!manager.set_phase_status_first(SetupPhase::Core, true));
    assert!(!manager.set_phase_status_second(SetupPhase::Core, true));
}

#[test]
fn hardware_alone_does_not_spawn_batch_two() {
    let mut manager = SetupManager::new();
    manager.set_phase_status(SetupPhase::Core, true);
    // Hardware completes while no node phase has: the AND gate stays closed.
    assert!(!manager.set_phase_status_first(SetupPhase::Hardware, true));
}

#[test]
fn hardware_and_local_node_spawn_batch_two() {
    let mut manager = SetupManager::new();
    manager.set_phase_status(SetupPhase::Core, true);
    assert!(!manager.set_phase_status_first(SetupPhase::Hardware, true));
    // The node requirement is now met: batch 2 spawns.
    assert!(manager.set_phase_status_first(SetupPhase::LocalNode, true));
}

#[test]
fn remote_node_satisfies_the_or_side_of_the_gate() {
    let mut manager = SetupManager::new();
    assert!(!manager.set_phase_status_first(SetupPhase::RemoteNode, true));
    assert!(manager.set_phase_status_first(SetupPhase::Hardware, true));
}

#[test]
fn application_started_fires_exactly_once() {
    let mut manager = SetupManager::new();
    let mut fired: u32 = 0;
    if manager.set_phase_status_second(SetupPhase::Wallet, true) {
        fired += 1;
    }
    if manager.set_phase_status_second(SetupPhase::Unknown, true) {
        fired += 1;
    }
    assert_eq!(fired, 1);

    // The other report order behaves the same.
    let mut manager = SetupManager::new();
    let mut fired: u32 = 0;
    if manager.set_phase_status_second(SetupPhase::Unknown, true) {
        fired += 1;
    }
    if manager.set_phase_status_second(SetupPhase::Wallet, true) {
        fired += 1;
    }
    assert_eq!(fired, 1);
}

#[test]
fn unlock_conditions_follow_the_gates() {
    let mut manager = SetupManager::new();
    assert!(!manager.unlock_app());
    assert!(!manager.unlock_wallet());
    assert!(!manager.unlock_mining());

    manager.set_phase_status(SetupPhase::Core, true);
    assert!(manager.unlock_app());
    assert!(!manager.unlock_wallet());

    manager.set_phase_status_second(SetupPhase::Wallet, true);
    assert!(!manager.unlock_wallet());
    manager.set_phase_status_first(SetupPhase::LocalNode, true);
    assert!(manager.unlock_wallet());
    assert!(!manager.unlock_mining());

    manager.set_phase_status_first(SetupPhase::Hardware, true);
    assert!(manager.unlock_mining());
}

#[test]
fn failed_or_timed_out_setup_does_not_finalize() {
    assert!(should_finalize(&SetupOutcome::Completed));
    assert!(!should_finalize(&SetupOutcome::Failed));
    assert!(!should_finalize(&SetupOutcome::TimedOut));
    assert_eq!(SETUP_TIMEOUT_SECS, 600);
}

#[test]
fn hardware_phase_reports_into_the_manager() {
    let mut phase = CoreSetupPhase::new();
    phase.load_configuration(HardwareSetupPhaseAppConfiguration::new(true, Some(1_700_000_000), false));

    let mut manager = SetupManager::new();
    // Finalizing the hardware phase reports its flag; the batch-1 gate it
    // checks is still closed because Core has not completed.
    assert!(!phase.finalize_setup(&mut manager));
    assert!(manager.phase_status(SetupPhase::Hardware));

    // With Core already complete, the same report triggers the next batch.
    let mut manager = SetupManager::new();
    manager.set_phase_status(SetupPhase::Core, true);
    assert!(phase.finalize_setup(&mut manager));
}

#[test]
fn phase_configuration_is_loaded_verbatim() {
    let mut phase = CoreSetupPhase::new();
    let configuration = HardwareSetupPhaseAppConfiguration::new(true, None, true);
    phase.load_configuration(configuration);
    // Reload with other values: the latest load wins.
    let configuration = HardwareSetupPhaseAppConfiguration::new(false, Some(42), true);
    phase.load_configuration(configuration.clone());
    assert!(!configuration.is_auto_launcher_enabled());
    assert_eq!(configuration.last_binaries_update_timestamp(), Some(42));
    assert!(configuration.use_tor());
}
