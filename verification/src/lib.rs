//! Core of a supervisor for long-running external worker processes.
//!
//! The crate owns the decision logic of the system: health classification
//! with a warning counter (`health_monitor`), the per-process supervisor
//! state machine (`process_watcher`), the weighted progress ladder
//! (`progress_tracker`), and the phase-gated setup orchestrator
//! (`setup_manager`, `phase_hardware`). Asynchronous plumbing — spawning OS
//! processes, timers, event emission — lives with the runtime that embeds
//! this crate; the library states, for every decision, exactly which state
//! follows from which observation.

pub mod binaries;
pub mod configs;
pub mod hardware_readers;
pub mod health_monitor;
pub mod latest_release;
pub mod pattern;
pub mod platform;
pub mod phase_hardware;
pub mod progress_tracker;
pub mod process_watcher;
pub mod setup_manager;
pub mod systemtray;
