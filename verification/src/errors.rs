//! The error taxonomy of the library, and the fixed mapping from low-level USB
//! faults to the errors that callers see.

use vstd::prelude::*;

verus! {

/// Outcome classification of one failed low-level USB operation.
#[derive(Clone, Copy, Debug, PartialEq, Eq, Structural)]
pub enum UsbFault {
    /// The device is gone (disconnected mid-sequence).
    Disconnected,
    /// The operating system denied access.
    PermissionDenied,
    /// The operation timed out.
    Timeout,
    /// Any other failure reported by the USB stack.
    Other,
}

/// The error a library operation reports to its caller.
#[derive(Clone, Copy, Debug, PartialEq, Eq, Structural)]
pub enum DeviceError {
    /// No matching device was opened during enumeration.
    NotFound,
    /// The device exposes no configuration descriptor.
    DeviceUnavailable,
    /// The descriptor walk found no endpoints.
    NoEndpoints,
    /// Kernel-driver detach/reattach or interface claim/release failed.
    DriverError,
    /// The control transfer failed or timed out.
    TransferError,
    /// The operating system denied the open or the claim.
    PermissionDenied,
}

/// The error a failed interface claim produces: an access denial by the
/// operating system is surfaced as such; every other fault is a driver
/// error.
pub open spec fn spec_claim_error(f: UsbFault) -> DeviceError {
    if f is PermissionDenied {
        DeviceError::PermissionDenied
    } else {
        DeviceError::DriverError
    }
}

/// Maps a fault of the interface claim to the caller-visible error.
pub fn claim_error_of(f: UsbFault) -> (r: DeviceError)
    ensures
        r == spec_claim_error(f),
{
    match f {
        UsbFault::PermissionDenied => DeviceError::PermissionDenied,
        _ => DeviceError::DriverError,
    }
}

/// Final error of a report read: the first error encountered takes
/// priority; a cleanup failure (release, then reattach) is reported only
/// when no earlier error exists.
pub open spec fn spec_resolve_errors(
    primary: Option<DeviceError>,
    release: Option<DeviceError>,
    reattach: Option<DeviceError>,
) -> Option<DeviceError> {
    if primary is Some {
        primary
    } else if release is Some {
        release
    } else {
        reattach
    }
}

/// Picks the error a report read reports, by the priority policy: the
/// transfer-stage error first, then a release failure, then a reattach
/// failure.
pub fn resolve_errors(
    primary: Option<DeviceError>,
    release: Option<DeviceError>,
    reattach: Option<DeviceError>,
) -> (r: Option<DeviceError>)
    ensures
        r == spec_resolve_errors(primary, release, reattach),
{
    if primary.is_some() {
        primary
    } else if release.is_some() {
        release
    } else {
        reattach
    }
}

} // verus!
