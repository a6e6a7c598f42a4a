use vstd::prelude::*;

verus! {

/// Why a request or a completion failed.
///
/// Every failure the controller reports uses one of these variants; all of
/// them are recoverable and are delivered to the caller through the same
/// completion path as success, never as a fatal condition.
#[derive(Clone, Copy, Debug, PartialEq, Eq, Structural)]
pub enum RequestError {
    /// The native framework returned a non-nil error object; the decoded
    /// native error code is attached.
    NativeCallFailed { code: i64 },
    /// The operation was attempted on a handle that this controller no
    /// longer considers usable: the device was removed, or its session
    /// lifecycle already ended.
    InvalidHandle,
    /// The request needs a capability tag the device does not advertise.
    CapabilityMissing,
    /// A second transfer or open/close request arrived while one was still
    /// pending for the same device.
    ConcurrentRequestRejected,
    /// A delegate registration collided with one that is still alive.
    RegistrationConflict,
    /// A watchdog synthesized this error after a pending request went
    /// unanswered for too long.
    Timeout,
}

impl RequestError {
    /// The text `describe` returns for each variant.
    pub open spec fn describe_spec(self) -> Seq<char> {
        match self {
            RequestError::NativeCallFailed { .. } => "native call failed"@,
            RequestError::InvalidHandle => "invalid handle"@,
            RequestError::CapabilityMissing => "capability missing"@,
            RequestError::ConcurrentRequestRejected => "concurrent request rejected"@,
            RequestError::RegistrationConflict => "registration conflict"@,
            RequestError::Timeout => "timeout"@,
        }
    }

    /// A short, stable description of the error.
    pub fn describe(&self) -> (r: &'static str)
        ensures
            r@ == self.describe_spec(),
    {
        match self {
            RequestError::NativeCallFailed { .. } => "native call failed",
            RequestError::InvalidHandle => "invalid handle",
            RequestError::CapabilityMissing => "capability missing",
            RequestError::ConcurrentRequestRejected => "concurrent request rejected",
            RequestError::RegistrationConflict => "registration conflict",
            RequestError::Timeout => "timeout",
        }
    }
}

} // verus!
