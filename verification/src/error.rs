//! The failure taxonomy of the library.
//!
//! Transport- and frame-level failures are retried inside the exchange;
//! every other failure propagates to the caller as one of these typed
//! values, never as a silently substituted default.

use vstd::prelude::*;

verus! {

/// Names the enumeration a raw hardware byte was supposed to encode.
#[derive(Clone, Copy, Debug, PartialEq, Eq, Structural)]
pub enum EnumKind {
    PerfMode,
    MaxFanSpeedMode,
    FanMode,
    CpuBoost,
    GpuBoost,
    LogoMode,
    LightsAlwaysOn,
    BatteryCare,
}

/// Every failure the library can report.
#[derive(Debug, PartialEq)]
pub enum Error {
    /// Model auto-detection is not implementable on this host platform.
    PlatformUnsupported,
    /// The host reported a model identifier outside the vendor's pattern.
    NotARazerDevice,
    /// A vendor device is attached but its model is absent from the registry.
    UnsupportedModel { detected_prefix: String, candidate_pids: Vec<u16> },
    /// No candidate HID path accepted the feature-report probe.
    DeviceOpenFailed,
    /// A response frame had the wrong byte length.
    FrameError,
    /// A response frame's stored checksum disagrees with the computed one.
    ChecksumMismatch,
    /// The retry budget of an exchange was exhausted.
    ExchangeFailed { attempts: u8 },
    /// A byte was outside the known variant set of the named enumeration.
    InvalidEnumValue { raw: u8, target: EnumKind },
    /// The descriptor of the open model does not permit the requested command.
    UnsupportedForModel,
}

} // verus!
