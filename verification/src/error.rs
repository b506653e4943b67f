//! The fatal-error taxonomy of the monitor. Every condition aborts the
//! session; there is no retry or reconnection.

use vstd::prelude::*;

verus! {

/// The logical role a vendor characteristic is bound to.
#[derive(Clone, Copy, Debug, PartialEq, Eq, Structural)]
pub enum CharacteristicRole {
    ReadTelemetry,
    WriteCommand,
}

/// Every fatal condition of the monitor, from startup through the poll loop.
#[derive(Clone, Copy, Debug, PartialEq, Eq, Structural)]
pub enum SessionError {
    /// No BLE adapter is present.
    AdapterUnavailable,
    /// The discovery stream ended without the target device appearing.
    NotFound,
    /// The GATT link could not be established.
    ConnectionFailed,
    /// Service discovery failed on the connected device.
    DiscoveryFailed,
    /// A vendor characteristic required for the given role is absent.
    CharacteristicNotFound(CharacteristicRole),
    /// Enabling notifications on the read characteristic failed.
    SubscriptionFailed,
    /// Sending the poll command failed.
    WriteFailed,
    /// A frame matched the magic prefix but was too short to decode fully.
    MalformedFrame,
}

/// The description printed for each fatal condition.
pub open spec fn error_text(e: SessionError) -> Seq<char> {
    match e {
        SessionError::AdapterUnavailable => "No adapters"@,
        SessionError::NotFound => "WalkingPad not found"@,
        SessionError::ConnectionFailed => "Connection failed"@,
        SessionError::DiscoveryFailed => "Service discovery failed"@,
        SessionError::CharacteristicNotFound(CharacteristicRole::ReadTelemetry) => "No read characteristic"@,
        SessionError::CharacteristicNotFound(CharacteristicRole::WriteCommand) => "No write characteristic"@,
        SessionError::SubscriptionFailed => "Subscription failed"@,
        SessionError::WriteFailed => "Write failed"@,
        SessionError::MalformedFrame => "Malformed frame"@,
    }
}

impl SessionError {
    /// A human-readable description of the error.
    pub fn describe(&self) -> (r: &'static str)
        ensures
            r@ == error_text(*self),
    {
        match self {
            SessionError::AdapterUnavailable => "No adapters",
            SessionError::NotFound => "WalkingPad not found",
            SessionError::ConnectionFailed => "Connection failed",
            SessionError::DiscoveryFailed => "Service discovery failed",
            SessionError::CharacteristicNotFound(CharacteristicRole::ReadTelemetry) => "No read characteristic",
            SessionError::CharacteristicNotFound(CharacteristicRole::WriteCommand) => "No write characteristic",
            SessionError::SubscriptionFailed => "Subscription failed",
            SessionError::WriteFailed => "Write failed",
            SessionError::MalformedFrame => "Malformed frame",
        }
    }
}

} // verus!
