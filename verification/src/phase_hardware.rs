//! The hardware setup phase: configuration, progress plan, timeout policy,
//! and the completion report into the setup manager.
//!
//! A phase's `setup` body races against a phase-level timeout. The runtime
//! runs the race and feeds the outcome back into `should_finalize`: only a
//! completed setup reports its flag (through `finalize_setup`); a failed or
//! timed-out setup is surfaced to error telemetry and leaves the flag
//! untouched, so dependent phases stay blocked until an application restart.

use vstd::prelude::*;

use crate::progress_tracker::ProgressPlanBuilder;
use crate::setup_manager::SetupManager;
use crate::setup_manager::SetupPhase;

verus! {

/// Seconds a phase's setup may take before it is reported as timed out.
pub const SETUP_TIMEOUT_SECS: u64 = 600;

/// Per-run (session) configuration of the hardware phase. The phase
/// currently needs nothing from the session.
#[derive(Clone, Copy, PartialEq, Eq, Structural, Debug)]
pub struct HardwareSetupPhaseSessionConfiguration {}

impl Default for HardwareSetupPhaseSessionConfiguration {
    fn default() -> (configuration: Self)
        ensures
            configuration == (HardwareSetupPhaseSessionConfiguration {  }),
    {
        HardwareSetupPhaseSessionConfiguration {  }
    }
}

/// Slice of the persisted application configuration the hardware phase
/// consumes, loaded once before `setup` runs.
#[derive(Clone)]
pub struct HardwareSetupPhaseAppConfiguration {
    is_auto_launcher_enabled: bool,
    last_binaries_update_timestamp: Option<u64>,
    use_tor: bool,
}

impl HardwareSetupPhaseAppConfiguration {
    /// Whether the application registers itself to start on login.
    pub closed spec fn is_auto_launcher_enabled_spec(self) -> bool {
        self.is_auto_launcher_enabled
    }

    /// Seconds since the epoch of the last binaries update, if any.
    pub closed spec fn last_binaries_update_timestamp_spec(self) -> Option<u64> {
        self.last_binaries_update_timestamp
    }

    /// Whether network traffic is routed through Tor.
    pub closed spec fn use_tor_spec(self) -> bool {
        self.use_tor
    }

    pub fn new(
        is_auto_launcher_enabled: bool,
        last_binaries_update_timestamp: Option<u64>,
        use_tor: bool,
    ) -> (configuration: Self)
        ensures
            configuration.is_auto_launcher_enabled_spec() == is_auto_launcher_enabled,
            configuration.last_binaries_update_timestamp_spec() == last_binaries_update_timestamp,
            configuration.use_tor_spec() == use_tor,
    {
        HardwareSetupPhaseAppConfiguration {
            is_auto_launcher_enabled,
            last_binaries_update_timestamp,
            use_tor,
        }
    }

    pub fn is_auto_launcher_enabled(&self) -> (enabled: bool)
        ensures
            enabled == self.is_auto_launcher_enabled_spec(),
    {
        self.is_auto_launcher_enabled
    }

    pub fn last_binaries_update_timestamp(&self) -> (timestamp: Option<u64>)
        ensures
            timestamp == self.last_binaries_update_timestamp_spec(),
    {
        self.last_binaries_update_timestamp
    }

    pub fn use_tor(&self) -> (use_tor: bool)
        ensures
            use_tor == self.use_tor_spec(),
    {
        self.use_tor
    }
}

impl Default for HardwareSetupPhaseAppConfiguration {
    fn default() -> (configuration: Self)
        ensures
            !configuration.is_auto_launcher_enabled_spec(),
            configuration.last_binaries_update_timestamp_spec() is None,
            !configuration.use_tor_spec(),
    {
        HardwareSetupPhaseAppConfiguration {
            is_auto_launcher_enabled: false,
            last_binaries_update_timestamp: None,
            use_tor: false,
        }
    }
}

/// How a phase's setup body ended: the runtime races the body against the
/// phase timeout and records one of these.
#[derive(Clone, Copy, PartialEq, Eq, Structural, Debug)]
pub enum SetupOutcome {
    /// The body ran to completion.
    Completed,
    /// The body returned an error.
    Failed,
    /// The timeout won the race.
    TimedOut,
}

/// Whether an outcome completes the phase: only a completed setup reports
/// its flag; failures and timeouts are surfaced and leave dependents
/// blocked.
pub fn should_finalize(outcome: &SetupOutcome) -> (finalize: bool)
    ensures
        finalize == (*outcome == SetupOutcome::Completed),
{
    match outcome {
        SetupOutcome::Completed => true,
        SetupOutcome::Failed => false,
        SetupOutcome::TimedOut => false,
    }
}

/// The hardware phase of the setup sequence.
pub struct CoreSetupPhase {
    progress_stepper: ProgressPlanBuilder,
    app_configuration: HardwareSetupPhaseAppConfiguration,
    session_configuration: HardwareSetupPhaseSessionConfiguration,
}

impl CoreSetupPhase {
    /// The progress plan assembled for this phase run.
    pub closed spec fn progress_stepper_spec(self) -> ProgressPlanBuilder {
        self.progress_stepper
    }

    /// The configuration slice loaded for this phase run.
    pub closed spec fn app_configuration_spec(self) -> HardwareSetupPhaseAppConfiguration {
        self.app_configuration
    }

    /// The session configuration of this phase run.
    pub closed spec fn session_configuration_spec(self) -> HardwareSetupPhaseSessionConfiguration {
        self.session_configuration
    }

    /// The empty progress plan this phase starts a run with.
    pub fn create_progress_stepper() -> (stepper: ProgressPlanBuilder)
        ensures
            stepper.plan_view().len() == 0,
            stepper.ladder_view().len() == 0,
    {
        ProgressPlanBuilder::new()
    }

    pub fn new() -> (phase: Self)
        ensures
            phase.progress_stepper_spec().plan_view().len() == 0,
            !phase.app_configuration_spec().is_auto_launcher_enabled_spec(),
            phase.app_configuration_spec().last_binaries_update_timestamp_spec() is None,
            !phase.app_configuration_spec().use_tor_spec(),
    {
        CoreSetupPhase {
            progress_stepper: Self::create_progress_stepper(),
            app_configuration: HardwareSetupPhaseAppConfiguration::default(),
            session_configuration: HardwareSetupPhaseSessionConfiguration::default(),
        }
    }

    /// Install the configuration slice for this run.
    pub fn load_configuration(&mut self, configuration: HardwareSetupPhaseAppConfiguration)
        ensures
            final(self).app_configuration_spec() == configuration,
            final(self).progress_stepper_spec() == old(self).progress_stepper_spec(),
            final(self).session_configuration_spec() == old(self).session_configuration_spec(),
    {
        self.app_configuration = configuration;
    }

    /// Report this phase's completion into the manager and evaluate the
    /// dependency condition the report feeds: the result says whether the
    /// runtime must spawn the next batch of phases.
    pub fn finalize_setup(&self, manager: &mut SetupManager) -> (spawn_first_batch: bool)
        ensures
            *final(manager) == old(manager).with_status(SetupPhase::Hardware, true),
            forall|p: SetupPhase|
                #[trigger] final(manager).status(p) == if p == SetupPhase::Hardware {
                    true
                } else {
                    old(manager).status(p)
                },
            spawn_first_batch == final(manager).first_batch_gate(),
    {
        manager.set_phase_status(SetupPhase::Hardware, true)
    }
}

} // verus!
