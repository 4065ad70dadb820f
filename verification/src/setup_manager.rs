//! Phase-gated setup orchestrator.
//!
//! Startup work is split into named phases. Each phase reports its
//! completion exactly once into a phase→completed table held here; every
//! report is followed by a gate check that decides whether the next batch of
//! phases may be spawned:
//!
//! - `Core` complete → batch 1 (`Hardware`, `LocalNode`, optionally
//!   `RemoteNode`) may be spawned;
//! - `Hardware` complete and (`LocalNode` or `RemoteNode`) complete →
//!   batch 2 (`Wallet`, `Unknown`) may be spawned;
//! - `Wallet` and `Unknown` complete → the application is declared fully
//!   started.
//!
//! The manager only decides; spawning phase tasks and emitting the
//! application-started event is the runtime's job, driven by the booleans
//! the `set_phase_status` family returns. A phase that fails or times out
//! never sets its flag, so its dependents stay blocked by design.

use vstd::prelude::*;

verus! {

/// The named units of startup work.
#[derive(Clone, Copy, PartialEq, Eq, Hash, Structural, Debug)]
pub enum SetupPhase {
    Core,
    Wallet,
    Hardware,
    LocalNode,
    RemoteNode,
    Unknown,
}

/// Phase→completed table with the AND/OR dependency gates over it.
///
/// Phase completion is monotonic in intent: each phase reports `true` once
/// when its setup finishes; a failed or timed-out phase reports nothing.
pub struct SetupManager {
    core_complete: bool,
    wallet_complete: bool,
    hardware_complete: bool,
    local_node_complete: bool,
    remote_node_complete: bool,
    unknown_complete: bool,
}

impl SetupManager {
    /// The completion flag recorded for a phase.
    pub closed spec fn status(self, phase: SetupPhase) -> bool {
        match phase {
            SetupPhase::Core => self.core_complete,
            SetupPhase::Wallet => self.wallet_complete,
            SetupPhase::Hardware => self.hardware_complete,
            SetupPhase::LocalNode => self.local_node_complete,
            SetupPhase::RemoteNode => self.remote_node_complete,
            SetupPhase::Unknown => self.unknown_complete,
        }
    }

    /// The table after one phase's flag is set to `status`.
    pub closed spec fn with_status(self, phase: SetupPhase, status: bool) -> Self {
        match phase {
            SetupPhase::Core => Self { core_complete: status, ..self },
            SetupPhase::Wallet => Self { wallet_complete: status, ..self },
            SetupPhase::Hardware => Self { hardware_complete: status, ..self },
            SetupPhase::LocalNode => Self { local_node_complete: status, ..self },
            SetupPhase::RemoteNode => Self { remote_node_complete: status, ..self },
            SetupPhase::Unknown => Self { unknown_complete: status, ..self },
        }
    }

    /// Gate for batch 1: `Core` is complete.
    pub open spec fn first_batch_gate(self) -> bool {
        self.status(SetupPhase::Core)
    }

    /// Gate for batch 2: `Hardware` is complete, and a node — local or
    /// remote — is complete.
    pub open spec fn second_batch_gate(self) -> bool {
        self.status(SetupPhase::Hardware) && (self.status(SetupPhase::LocalNode) || self.status(
            SetupPhase::RemoteNode,
        ))
    }

    /// Gate for declaring the application fully started: `Wallet` and
    /// `Unknown` are complete.
    pub open spec fn application_started_gate(self) -> bool {
        self.status(SetupPhase::Wallet) && self.status(SetupPhase::Unknown)
    }

    /// A fresh manager: no phase has completed.
    pub fn new() -> (manager: Self)
        ensures
            forall|phase: SetupPhase| !(#[trigger] manager.status(phase)),
    {
        let manager = SetupManager {
            core_complete: false,
            wallet_complete: false,
            hardware_complete: false,
            local_node_complete: false,
            remote_node_complete: false,
            unknown_complete: false,
        };
        manager
    }

    /// Read one phase's completion flag.
    pub fn phase_status(&self, phase: SetupPhase) -> (complete: bool)
        ensures
            complete == self.status(phase),
    {
        match phase {
            SetupPhase::Core => self.core_complete,
            SetupPhase::Wallet => self.wallet_complete,
            SetupPhase::Hardware => self.hardware_complete,
            SetupPhase::LocalNode => self.local_node_complete,
            SetupPhase::RemoteNode => self.remote_node_complete,
            SetupPhase::Unknown => self.unknown_complete,
        }
    }

    fn record_status(&mut self, phase: SetupPhase, status: bool)
        ensures
            *final(self) == old(self).with_status(phase, status),
    {
        match phase {
            SetupPhase::Core => self.core_complete = status,
            SetupPhase::Wallet => self.wallet_complete = status,
            SetupPhase::Hardware => self.hardware_complete = status,
            SetupPhase::LocalNode => self.local_node_complete = status,
            SetupPhase::RemoteNode => self.remote_node_complete = status,
            SetupPhase::Unknown => self.unknown_complete = status,
        }
    }

    /// Record a phase report and check the batch-1 gate: the result says
    /// whether the runtime must spawn the `Hardware`/`LocalNode` (and
    /// optionally `RemoteNode`) phase tasks now.
    pub fn set_phase_status(&mut self, phase: SetupPhase, status: bool) -> (spawn_first_batch:
        bool)
        ensures
            *final(self) == old(self).with_status(phase, status),
            forall|p: SetupPhase|
                #[trigger] final(self).status(p) == if p == phase {
                    status
                } else {
                    old(self).status(p)
                },
            spawn_first_batch == final(self).first_batch_gate(),
    {
        self.record_status(phase, status);
        self.core_complete
    }

    /// Record a report from a batch-1 phase and check the batch-2 gate: the
    /// result says whether the runtime must spawn the `Wallet`/`Unknown`
    /// phase tasks now.
    pub fn set_phase_status_first(&mut self, phase: SetupPhase, status: bool) -> (
        spawn_second_batch: bool)
        ensures
            *final(self) == old(self).with_status(phase, status),
            forall|p: SetupPhase|
                #[trigger] final(self).status(p) == if p == phase {
                    status
                } else {
                    old(self).status(p)
                },
            spawn_second_batch == final(self).second_batch_gate(),
    {
        self.record_status(phase, status);
        self.hardware_complete && (self.local_node_complete || self.remote_node_complete)
    }

    /// Record a report from a batch-2 phase and check the final gate: the
    /// result says whether the runtime must declare the application fully
    /// started (initialize the frontend update channel and emit the
    /// application-started event).
    pub fn set_phase_status_second(&mut self, phase: SetupPhase, status: bool) -> (
        application_started: bool)
        ensures
            *final(self) == old(self).with_status(phase, status),
            forall|p: SetupPhase|
                #[trigger] final(self).status(p) == if p == phase {
                    status
                } else {
                    old(self).status(p)
                },
            application_started == final(self).application_started_gate(),
    {
        self.record_status(phase, status);
        self.wallet_complete && self.unknown_complete
    }

    /// Whether the application shell may be unlocked: the `Core` phase has
    /// completed.
    pub fn unlock_app(&self) -> (unlocked: bool)
        ensures
            unlocked == self.status(SetupPhase::Core),
    {
        self.core_complete
    }

    /// Whether the wallet may be unlocked: `Core` and `Wallet` have
    /// completed, and a node — local or remote — has completed.
    pub fn unlock_wallet(&self) -> (unlocked: bool)
        ensures
            unlocked == (self.status(SetupPhase::Core) && self.status(SetupPhase::Wallet) && (
            self.status(SetupPhase::LocalNode) || self.status(SetupPhase::RemoteNode))),
    {
        self.core_complete && self.wallet_complete && (self.local_node_complete
            || self.remote_node_complete)
    }

    /// Whether mining may be unlocked: `Core`, `Wallet` and `Hardware` have
    /// completed, and a node — local or remote — has completed.
    pub fn unlock_mining(&self) -> (unlocked: bool)
        ensures
            unlocked == (self.status(SetupPhase::Core) && self.status(SetupPhase::Wallet)
                && self.status(SetupPhase::Hardware) && (self.status(SetupPhase::LocalNode)
                || self.status(SetupPhase::RemoteNode))),
    {
        self.core_complete && self.wallet_complete && self.hardware_complete && (
        self.local_node_complete || self.remote_node_complete)
    }
}

/// The application-started event fires exactly once: when `Wallet` and
/// `Unknown` each report completion once, in either order, the final gate is
/// closed after the first report and open after the second — so exactly one
/// of the two reports triggers the event.
pub proof fn lemma_application_started_fires_once(manager: SetupManager)
    requires
        !manager.status(SetupPhase::Wallet),
        !manager.status(SetupPhase::Unknown),
    ensures
        ({
            let after_wallet = manager.with_status(SetupPhase::Wallet, true);
            let after_both = after_wallet.with_status(SetupPhase::Unknown, true);
            !after_wallet.application_started_gate() && after_both.application_started_gate()
        }),
        ({
            let after_unknown = manager.with_status(SetupPhase::Unknown, true);
            let after_both = after_unknown.with_status(SetupPhase::Wallet, true);
            !after_unknown.application_started_gate() && after_both.application_started_gate()
        }),
{
}

/// Completing `Core` opens the batch-1 gate but not the batch-2 or final
/// gates: on a fresh table, the `Core` report spawns `Hardware` and
/// `LocalNode`, and nothing else.
pub proof fn lemma_core_opens_only_first_batch(manager: SetupManager)
    requires
        forall|phase: SetupPhase| !(#[trigger] manager.status(phase)),
    ensures
        ({
            let after_core = manager.with_status(SetupPhase::Core, true);
            after_core.first_batch_gate() && !after_core.second_batch_gate()
                && !after_core.application_started_gate()
        }),
{
    assert(!manager.status(SetupPhase::Hardware));
    assert(!manager.status(SetupPhase::Wallet));
    assert(!manager.status(SetupPhase::Unknown));
}

/// The batch-2 gate needs both sides of its AND: `Hardware` alone does not
/// open it while no node phase has completed, and `LocalNode` alongside
/// `Hardware` does.
pub proof fn lemma_second_batch_needs_hardware_and_node(manager: SetupManager)
    requires
        forall|phase: SetupPhase| !(#[trigger] manager.status(phase)),
    ensures
        ({
            let after_hardware = manager.with_status(SetupPhase::Hardware, true);
            let after_local = after_hardware.with_status(SetupPhase::LocalNode, true);
            !after_hardware.second_batch_gate() && after_local.second_batch_gate()
        }),
{
    assert(!manager.status(SetupPhase::LocalNode));
    assert(!manager.status(SetupPhase::RemoteNode));
}

} // verus!
