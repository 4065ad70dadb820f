//! The operating systems and CPU architectures the application runs on.
//!
//! Which platform the build targets is decided once, at composition time, by
//! the embedding runtime; everything here takes the platform as a value.

use vstd::prelude::*;

verus! {

/// The operating systems the application supports.
#[derive(Clone, Copy, PartialEq, Eq, Structural, Debug)]
pub enum CurrentOperatingSystem {
    Windows,
    Linux,
    MacOS,
}

/// The CPU architectures release binaries are published for.
#[derive(Clone, Copy, PartialEq, Eq, Structural, Debug)]
pub enum CpuArchitecture {
    X64,
    Arm64,
}

} // verus!
