//! Platform-specific readings: battery, GPU, thermal state, desktop integration.
use vstd::prelude::*;

use crate::alerts::BatteryReading;
use crate::model::Reading;
use crate::text::str_equals;

verus! {

/// What a platform can report beyond the portable sampler.
pub trait PlatformAdapter {
    fn battery_state(&self) -> Option<BatteryReading>;

    fn gpu_usage_percent(&self) -> Option<Reading>;

    fn thermal_state(&self) -> Option<String>;

    fn accessibility_available(&self) -> bool;

    fn startup_registration_supported(&self) -> bool;
}

/// The operating system the program was built for.
#[derive(Debug, Clone, Copy, PartialEq, Eq, Structural)]
pub enum TargetOs {
    Linux,
    MacOs,
    Windows,
    Other,
}

/// The operating system named as `std::env::consts::OS` names it (`linux`, `macos`,
/// `windows`; any other name is another system).
pub open spec fn target_os_spec(name: Seq<char>) -> TargetOs {
    if name == "linux"@ {
        TargetOs::Linux
    } else if name == "macos"@ {
        TargetOs::MacOs
    } else if name == "windows"@ {
        TargetOs::Windows
    } else {
        TargetOs::Other
    }
}

/// The operating system of a name such as `std::env::consts::OS`.
pub fn target_os(name: &str) -> (os: TargetOs)
    ensures
        os == target_os_spec(name@),
{
    if str_equals(name, "linux") {
        TargetOs::Linux
    } else if str_equals(name, "macos") {
        TargetOs::MacOs
    } else if str_equals(name, "windows") {
        TargetOs::Windows
    } else {
        TargetOs::Other
    }
}

/// The adapter for platforms without native telemetry: it reports nothing, and knows
/// which system the program was built for.
#[derive(Debug, Clone, Copy)]
pub struct DefaultPlatformAdapter {
    pub os: TargetOs,
}

impl DefaultPlatformAdapter {
    /// The adapter of a program built for `os`.
    pub fn new(os: TargetOs) -> (a: DefaultPlatformAdapter)
        ensures
            a.os == os,
    {
        DefaultPlatformAdapter { os }
    }

    /// No battery reading.
    pub fn battery_state(&self) -> (r: Option<BatteryReading>)
        ensures
            r is None,
    {
        None
    }

    /// No GPU reading.
    pub fn gpu_usage_percent(&self) -> (r: Option<Reading>)
        ensures
            r is None,
    {
        None
    }

    /// No thermal reading.
    pub fn thermal_state(&self) -> (r: Option<String>)
        ensures
            r is None,
    {
        None
    }

    /// Accessibility integration is not available.
    pub fn accessibility_available(&self) -> (b: bool)
        ensures
            !b,
    {
        false
    }

    /// Startup registration is supported on Linux, macOS and Windows, not elsewhere.
    pub fn startup_registration_supported(&self) -> (b: bool)
        ensures
            b == (self.os != TargetOs::Other),
    {
        match self.os {
            TargetOs::Other => false,
            _ => true,
        }
    }
}

impl PlatformAdapter for DefaultPlatformAdapter {
    fn battery_state(&self) -> (r: Option<BatteryReading>)
        ensures
            r is None,
    {
        DefaultPlatformAdapter::battery_state(self)
    }

    fn gpu_usage_percent(&self) -> (r: Option<Reading>)
        ensures
            r is None,
    {
        DefaultPlatformAdapter::gpu_usage_percent(self)
    }

    fn thermal_state(&self) -> (r: Option<String>)
        ensures
            r is None,
    {
        DefaultPlatformAdapter::thermal_state(self)
    }

    fn accessibility_available(&self) -> (b: bool)
        ensures
            !b,
    {
        DefaultPlatformAdapter::accessibility_available(self)
    }

    fn startup_registration_supported(&self) -> (b: bool)
        ensures
            b == (self.os != TargetOs::Other),
    {
        DefaultPlatformAdapter::startup_registration_supported(self)
    }
}

} // verus!
