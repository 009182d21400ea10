//! Identifiers and error values shared by every component.

use vstd::prelude::*;

verus! {

/// Opaque identifier of an isolated client context.
pub type ContextId = u64;

/// Stable numeric identifier of a display.
pub type DeviceId = u64;

/// Why a request was rejected.
#[derive(Clone, Copy, Debug, PartialEq, Eq, Structural)]
pub enum VrError {
    /// The requested device id is not known to the registry.
    DeviceNotFound,
    /// The device is in a presenting session held by a different context.
    DeviceBusy,
    /// The caller asked to leave a presenting session it does not hold.
    NotPresenting,
    /// The channel on which the reply had to travel is gone.
    TransportFailure,
}

/// The text that goes with each error.
pub open spec fn error_message(e: VrError) -> Seq<char> {
    match e {
        VrError::DeviceNotFound => "Device not found"@,
        VrError::DeviceBusy => "Device owned by another context"@,
        VrError::NotPresenting => "Device is not presenting"@,
        VrError::TransportFailure => "Reply channel closed"@,
    }
}

impl VrError {
    /// The text that a client is given with the error.
    pub fn message(&self) -> (m: &'static str)
        ensures
            m@ == error_message(*self),
    {
        match self {
            VrError::DeviceNotFound => "Device not found",
            VrError::DeviceBusy => "Device owned by another context",
            VrError::NotPresenting => "Device is not presenting",
            VrError::TransportFailure => "Reply channel closed",
        }
    }
}

/// Evidence that the registry resolves `id` to a display.
#[derive(Clone, Copy, Debug, PartialEq, Eq, Structural)]
pub struct DeviceHandle {
    pub id: DeviceId,
}

} // verus!
