//! Which hardware telemetry readers are implemented on which platform.
//!
//! Reading live usage and temperature figures goes through system
//! interfaces and stays with the runtime; whether a reader is implemented at
//! all on a given platform is decided here.

use vstd::prelude::*;

use crate::platform::CurrentOperatingSystem;

verus! {

/// Reader of CPU usage and temperature on Apple hardware.
#[derive(Clone)]
pub struct AppleCpuParametersReader {}

impl AppleCpuParametersReader {
    pub fn new() -> (reader: Self)
    {
        AppleCpuParametersReader {  }
    }

    /// The Apple CPU reader works only on macOS.
    pub fn get_is_reader_implemented(&self, os: &CurrentOperatingSystem) -> (implemented: bool)
        ensures
            implemented == (*os == CurrentOperatingSystem::MacOS),
    {
        match os {
            CurrentOperatingSystem::Windows => false,
            CurrentOperatingSystem::Linux => false,
            CurrentOperatingSystem::MacOS => true,
        }
    }
}

/// Reader of Intel GPU usage and temperature.
#[derive(Clone)]
pub struct IntelGpuReader {}

impl IntelGpuReader {
    pub fn new() -> (reader: Self)
    {
        IntelGpuReader {  }
    }

    /// The Intel GPU reader is not implemented on any platform yet: it
    /// reports placeholder figures everywhere.
    pub fn get_is_reader_implemented(&self, os: &CurrentOperatingSystem) -> (implemented: bool)
        ensures
            !implemented,
    {
        match os {
            CurrentOperatingSystem::Windows => false,
            CurrentOperatingSystem::Linux => false,
            CurrentOperatingSystem::MacOS => false,
        }
    }
}

} // verus!
