//! Report-read orchestration: the strictly ordered sequence — find the
//! endpoint, detach the kernel driver if bound, claim the interface,
//! issue the control transfer, release the interface, reattach the
//! driver — with best-effort cleanup on every exit path and a fixed
//! error-priority policy. The sequence is modelled here over plain
//! values describing what each low-level operation would return, so every
//! path of it is verified and testable without hardware.

use vstd::prelude::*;

use crate::binding::{
    detach_wanted, reattach_needed, spec_detach_wanted, DriverBindingState, DriverQuery,
};
use crate::descriptor::{
    endpoint_at, flatten_endpoints, spec_config_endpoints, ConfigLayout, Endpoint,
};
use crate::errors::{
    claim_error_of, resolve_errors, spec_claim_error, spec_resolve_errors, DeviceError, UsbFault,
};

verus! {

/// Request byte of the vendor-defined report read.
pub const REPORT_REQUEST: u8 = 0x01;

/// Value field of the report-read control transfer.
pub const REPORT_VALUE: u16 = 0x0307;

/// Index field of the report-read control transfer.
pub const REPORT_INDEX: u16 = 0x0002;

/// Timeout of the control transfer, in milliseconds.
pub const CONTROL_TIMEOUT_MS: u64 = 1000;

/// Read policy for this peripheral: the transfer uses the endpoint at
/// this position of the descriptor walk (the first one found).
pub const REPORT_ENDPOINT_INDEX: usize = 0;

/// Request-type byte of the report read: direction device-to-host (bit
/// 7), type class-specific (bits 5..6 = 1), recipient interface (bits
/// 0..4 = 1).
pub fn report_request_type() -> (r: u8)
    ensures
        r == 0xa1u8,
{
    let direction_in: u8 = 0x80;
    let class_request: u8 = 0x20;
    let recipient_interface: u8 = 0x01;
    let r: u8 = direction_in | class_request | recipient_interface;
    assert(0x80u8 | 0x20u8 | 0x01u8 == 0xa1u8) by (bit_vector);
    r
}

/// What each low-level operation of one report read would return, as
/// plain values: a simulated device. `None` in a fault field means the
/// operation succeeds; `transfer` gives the bytes the device would write
/// on success, or the fault of a failed transfer.
#[derive(Debug)]
pub struct SimulatedDevice {
    /// The first configuration descriptor, or `None` when the device
    /// exposes none.
    pub config: Option<ConfigLayout>,
    /// What asking "is a kernel driver active on the interface?" returns.
    pub driver_query: DriverQuery,
    /// Fault of the kernel-driver detach, if it would fail.
    pub detach_fault: Option<UsbFault>,
    /// Fault of the interface claim, if it would fail.
    pub claim_fault: Option<UsbFault>,
    /// The control transfer: the bytes the device writes, or its fault.
    pub transfer: Result<Vec<u8>, UsbFault>,
    /// Fault of the interface release, if it would fail.
    pub release_fault: Option<UsbFault>,
    /// Fault of the kernel-driver reattach, if it would fail.
    pub reattach_fault: Option<UsbFault>,
}

/// Which side-effecting steps one report read performed.
#[derive(Clone, Copy, Debug, PartialEq, Eq, Structural)]
pub struct ReadTrace {
    /// The kernel driver was detached by this read.
    pub detached: bool,
    /// The interface claim succeeded.
    pub claimed: bool,
    /// The interface release was invoked.
    pub released: bool,
    /// The kernel-driver reattach was invoked.
    pub reattached: bool,
}

/// The descriptor walk of the simulated device finds an endpoint at the
/// policy index.
pub open spec fn sim_has_endpoint(dev: SimulatedDevice) -> bool {
    match dev.config {
        Some(c) => REPORT_ENDPOINT_INDEX < spec_config_endpoints(c).len(),
        None => false,
    }
}

/// The read detaches the kernel driver: an endpoint was found, the query
/// reported an active driver, and the detach itself succeeds.
pub open spec fn sim_detached(dev: SimulatedDevice) -> bool {
    sim_has_endpoint(dev) && spec_detach_wanted(dev.driver_query) && dev.detach_fault is None
}

/// The claim step is reached: an endpoint was found and the detach stage
/// did not fail (either no detach was wanted, or it succeeded).
pub open spec fn sim_claim_reached(dev: SimulatedDevice) -> bool {
    sim_has_endpoint(dev) && (!spec_detach_wanted(dev.driver_query) || dev.detach_fault is None)
}

/// The interface claim succeeds.
pub open spec fn sim_claimed(dev: SimulatedDevice) -> bool {
    sim_claim_reached(dev) && dev.claim_fault is None
}

/// The steps one report read on the simulated device performs: the
/// release is invoked exactly when the claim succeeded, and the reattach
/// exactly when this read detached the driver — whatever else failed.
pub open spec fn sim_trace(dev: SimulatedDevice) -> ReadTrace {
    ReadTrace {
        detached: sim_detached(dev),
        claimed: sim_claimed(dev),
        released: sim_claimed(dev),
        reattached: sim_detached(dev),
    }
}

/// The bytes the caller receives from a successful transfer into a buffer
/// of `buffer_len` bytes: the count the transfer reports is surfaced, not
/// the buffer size, so a short read stays short.
pub open spec fn spec_received(bytes: Seq<u8>, buffer_len: usize) -> Seq<u8> {
    if bytes.len() <= buffer_len {
        bytes
    } else {
        bytes.take(buffer_len as int)
    }
}

/// Result of one report read on the simulated device, under the error
/// policy: the first fatal error wins; a cleanup failure (release first,
/// then reattach) is reported only when no earlier error exists.
pub open spec fn sim_result(dev: SimulatedDevice, buffer_len: usize) -> Result<Seq<u8>, DeviceError> {
    if dev.config is None {
        Err(DeviceError::DeviceUnavailable)
    } else if !sim_has_endpoint(dev) {
        Err(DeviceError::NoEndpoints)
    } else if !sim_claim_reached(dev) {
        Err(DeviceError::DriverError)
    } else {
        match dev.claim_fault {
            Some(f) => Err(spec_claim_error(f)),
            None => {
                let primary = match dev.transfer {
                    Ok(_) => None,
                    Err(_) => Some(DeviceError::TransferError),
                };
                let release_err = match dev.release_fault {
                    Some(_) => Some(DeviceError::DriverError),
                    None => None,
                };
                let reattach_err = if sim_detached(dev) && dev.reattach_fault is Some {
                    Some(DeviceError::DriverError)
                } else {
                    None
                };
                match spec_resolve_errors(primary, release_err, reattach_err) {
                    Some(e) => Err(e),
                    None => match dev.transfer {
                        Ok(bytes) => Ok(spec_received(bytes@, buffer_len)),
                        Err(_) => Err(DeviceError::TransferError),
                    },
                }
            },
        }
    }
}

/// View of an executable read result at the specification level.
pub open spec fn spec_read_result(r: Result<Vec<u8>, DeviceError>) -> Result<Seq<u8>, DeviceError> {
    match r {
        Ok(v) => Ok(v@),
        Err(e) => Err(e),
    }
}

/// Copies out of `bytes` what a transfer into a buffer of `buffer_len`
/// bytes would hand the caller: all of `bytes` when it fits, else its
/// first `buffer_len` bytes.
pub fn received_bytes(bytes: &Vec<u8>, buffer_len: usize) -> (r: Vec<u8>)
    ensures
        r@ == spec_received(bytes@, buffer_len),
{
    let n: usize = if bytes.len() <= buffer_len {
        bytes.len()
    } else {
        buffer_len
    };
    let mut out: Vec<u8> = Vec::new();
    let mut k: usize = 0;
    while k < n
        invariant
            k <= n,
            n <= bytes@.len(),
            out@ == bytes@.take(k as int),
        decreases n - k,
    {
        out.push(bytes[k]);
        proof {
            assert(bytes@.take(k + 1) =~= bytes@.take(k as int).push(bytes@[k as int]));
        }
        k = k + 1;
    }
    proof {
        if bytes@.len() <= buffer_len {
            assert(bytes@.take(bytes@.len() as int) =~= bytes@);
        }
    }
    out
}

/// A fresh transfer buffer of `len` zero bytes: the caller pre-sizes the
/// buffer to the expected report length; the transfer never infers it.
pub fn zero_buffer(len: usize) -> (r: Vec<u8>)
    ensures
        r@.len() == len,
        forall|i: int| 0 <= i < len ==> r@[i] == 0,
{
    let mut out: Vec<u8> = Vec::new();
    let mut k: usize = 0;
    while k < len
        invariant
            k <= len,
            out@.len() == k,
            forall|i: int| 0 <= i < k ==> out@[i] == 0,
        decreases len - k,
    {
        out.push(0);
        k = k + 1;
    }
    out
}

/// Runs one report read against the simulated device, with a buffer of
/// `buffer_len` bytes for the transfer, and returns the caller-visible
/// result together with the trace of the side-effecting steps. The trace
/// always equals `sim_trace`: release and reattach run on every exit path
/// that owes them, a failed transfer included.
pub fn run_read_report(dev: &SimulatedDevice, buffer_len: usize) -> (r: (
    Result<Vec<u8>, DeviceError>,
    ReadTrace,
))
    requires
        buffer_len > 0,
    ensures
        spec_read_result(r.0) == sim_result(*dev, buffer_len),
        r.1 == sim_trace(*dev),
{
    let no_steps = ReadTrace { detached: false, claimed: false, released: false, reattached: false };
    let layout = match &dev.config {
        None => {
            return (Err(DeviceError::DeviceUnavailable), no_steps);
        },
        Some(c) => c,
    };
    let endpoints = flatten_endpoints(layout);
    let _endpoint: Endpoint = match endpoint_at(&endpoints, REPORT_ENDPOINT_INDEX) {
        Err(e) => {
            return (Err(e), no_steps);
        },
        Ok(ep) => ep,
    };
    let mut detached = false;
    if detach_wanted(dev.driver_query) {
        match dev.detach_fault {
            Some(_) => {
                return (Err(DeviceError::DriverError), no_steps);
            },
            None => {
                detached = true;
            },
        }
    }
    let binding = if detached {
        DriverBindingState::DetachedByUs
    } else {
        DriverBindingState::NotBound
    };
    if let Some(f) = dev.claim_fault {
        let trace = ReadTrace {
            detached,
            claimed: false,
            released: false,
            reattached: reattach_needed(binding),
        };
        return (Err(claim_error_of(f)), trace);
    }
    let mut primary: Option<DeviceError> = None;
    let mut data: Vec<u8> = Vec::new();
    match &dev.transfer {
        Ok(bytes) => {
            data = received_bytes(bytes, buffer_len);
        },
        Err(_) => {
            primary = Some(DeviceError::TransferError);
        },
    }
    let release_err: Option<DeviceError> = match dev.release_fault {
        Some(_) => Some(DeviceError::DriverError),
        None => None,
    };
    let reattach_err: Option<DeviceError> = if reattach_needed(binding) {
        match dev.reattach_fault {
            Some(_) => Some(DeviceError::DriverError),
            None => None,
        }
    } else {
        None
    };
    let trace = ReadTrace {
        detached,
        claimed: true,
        released: true,
        reattached: reattach_needed(binding),
    };
    match resolve_errors(primary, release_err, reattach_err) {
        Some(e) => (Err(e), trace),
        None => (Ok(data), trace),
    }
}

/// Cleanup-on-error invariant of the report read: on every simulated
/// device — one whose control transfer fails included — the read invokes
/// the interface release exactly when its claim succeeded, and the
/// kernel-driver reattach exactly when it detached the driver.
pub proof fn lemma_cleanup_always_runs(dev: SimulatedDevice)
    ensures
        sim_trace(dev).released == sim_trace(dev).claimed,
        sim_trace(dev).reattached == sim_trace(dev).detached,
{
}

/// A device disconnected mid-sequence is reported: when the stage that
/// hits the disconnection is reached and fails with it, the read returns
/// `DriverError` or `TransferError` — never a silent empty success.
pub proof fn lemma_disconnect_is_reported(dev: SimulatedDevice, buffer_len: usize)
    requires
        (sim_has_endpoint(dev) && spec_detach_wanted(dev.driver_query) && dev.detach_fault
            == Some(UsbFault::Disconnected)) || (sim_claim_reached(dev) && dev.claim_fault == Some(
            UsbFault::Disconnected,
        )) || (sim_claimed(dev) && dev.transfer == Result::<Vec<u8>, UsbFault>::Err(
            UsbFault::Disconnected,
        )) || (
        sim_claimed(dev) && dev.release_fault == Some(UsbFault::Disconnected)) || (sim_claimed(dev)
            && sim_detached(dev) && dev.reattach_fault == Some(UsbFault::Disconnected)),
    ensures
        sim_result(dev, buffer_len) == Result::<Seq<u8>, DeviceError>::Err(DeviceError::DriverError)
            || sim_result(dev, buffer_len) == Result::<Seq<u8>, DeviceError>::Err(DeviceError::TransferError),
{
}

} // verus!
