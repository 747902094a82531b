//! Typed errors surfaced by the protocol handlers and the configuration
//! resolver. Callers branch on the variants; no error is carried as free text.

use vstd::prelude::*;

verus! {

/// The device family a protocol-specific error originated from.
#[derive(Clone, Copy, Debug, PartialEq, Eq, Structural)]
pub enum ProtocolKind {
    DgLabV2,
    DgLabV3,
    GalakuOneEngine,
}

/// What went wrong inside one protocol handler.
#[derive(Clone, Copy, Debug, PartialEq, Eq, Structural)]
pub enum ProtocolErrorDetail {
    /// A scalar command carried a value outside the family's documented
    /// bounds for the given actuator; the offending value and the valid
    /// range are reported, never clamped.
    ScalarOutOfRange { scalar: u32, min: u32, max: u32 },
    /// A command addressed a channel index the family does not define.
    InvalidChannelIndex { index: usize },
    /// The device dropped the connection while the handler was waiting for
    /// a sensor notification.
    DisconnectedWhileReading,
}

/// Why a configuration document was rejected at load time.
#[derive(Clone, Copy, Debug, PartialEq, Eq, Structural)]
pub enum ConfigurationErrorDetail {
    /// The document's version field is older than the engine's compiled-in
    /// configuration version.
    VersionOlderThanInternal { document: u32, internal: u32 },
}

/// Device-level error taxonomy: validation failures, unhandled commands and
/// configuration rejections.
#[derive(Clone, Copy, Debug, PartialEq, Eq, Structural)]
pub enum ButtplugDeviceError {
    /// A validation failure tied to one device family.
    ProtocolSpecificError(ProtocolKind, ProtocolErrorDetail),
    /// The handler does not support the requested actuator or sensor kind.
    UnhandledCommand,
    /// A configuration document could not be accepted.
    DeviceConfigurationError(ConfigurationErrorDetail),
}

/// Top-level error wrapper handed to callers of the configuration loader.
#[derive(Clone, Copy, Debug, PartialEq, Eq, Structural)]
pub enum ButtplugError {
    ButtplugDeviceError(ButtplugDeviceError),
}

} // verus!
