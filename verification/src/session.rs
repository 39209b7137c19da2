//! Device sessions: enumeration of matching devices into opened sessions,
//! and the report-read operation over one session, composed from the
//! verified decision logic and the trusted USB wrappers.

use vstd::prelude::*;

use crate::binding::{detach_wanted, reattach_needed, spec_reattach_needed, DriverBindingState,
    DriverQuery};
use crate::descriptor::{endpoint_at, flatten_endpoints, Endpoint};
use crate::discovery::{finalize_discovery, identity_matches, DeviceIdentity};
use crate::errors::{claim_error_of, resolve_errors, DeviceError};
use crate::report::{received_bytes, report_request_type, zero_buffer, ReadTrace, CONTROL_TIMEOUT_MS,
    REPORT_ENDPOINT_INDEX, REPORT_INDEX, REPORT_REQUEST, REPORT_VALUE};
use crate::usb;
use crate::usb::{UsbDevice, UsbHandle};

verus! {

/// One opened device: the context it was enumerated from, the device
/// reference, the opened communication handle, and the identifiers its
/// descriptor reported at discovery time. The session owns its handles;
/// dropping the session closes the handle before the context it derives
/// from can be torn down.
pub struct DeviceSession {
    context: rusb::Context,
    device: UsbDevice,
    handle: UsbHandle,
    /// Vendor identifier read from the device's descriptor at discovery.
    pub vendor_id: u16,
    /// Product identifier read from the device's descriptor at discovery.
    pub product_id: u16,
}

/// Human-readable diagnostic information about one device: a side
/// informational query, not used by the report-read path.
pub struct DeviceInfo {
    /// Configuration value of the active configuration.
    pub active_configuration: u8,
    /// Manufacturer string, when the device exposes one.
    pub manufacturer: Option<String>,
    /// Product string, when the device exposes one.
    pub product: Option<String>,
    /// Serial-number string, when the device exposes one.
    pub serial_number: Option<String>,
}

impl DeviceSession {
    /// Vendor identifier recorded from the device's descriptor at
    /// discovery time.
    pub closed spec fn spec_vendor_id(self) -> u16 {
        self.vendor_id
    }

    /// Product identifier recorded from the device's descriptor at
    /// discovery time.
    pub closed spec fn spec_product_id(self) -> u16 {
        self.product_id
    }

    /// Enumerates every USB device visible to the host and opens one
    /// session per device whose vendor/product identifiers equal
    /// `identity`. A device whose descriptor cannot be read, whose
    /// identifiers differ, or whose open fails is skipped. Every session
    /// returned carries the requested identity; the discovery fails with
    /// `NotFound` exactly when zero sessions were opened, and with
    /// `DriverError` when the USB context or the device list itself
    /// cannot be obtained.
    pub fn discover_sessions(identity: DeviceIdentity) -> (r: Result<Vec<DeviceSession>, DeviceError>)
        ensures
            r matches Ok(v) ==> v@.len() > 0,
            r matches Ok(v) ==> (forall|i: int|
                0 <= i < v@.len() ==> v@[i].spec_vendor_id() == identity.vendor_id
                    && v@[i].spec_product_id() == identity.product_id),
            r matches Err(e) ==> (e == DeviceError::NotFound || e == DeviceError::DriverError),
    {
        let context = match usb::new_context() {
            Ok(c) => c,
            Err(_) => {
                return Err(DeviceError::DriverError);
            },
        };
        let mut devices = match usb::list_devices(&context) {
            Ok(d) => d,
            Err(_) => {
                return Err(DeviceError::DriverError);
            },
        };
        let mut sessions: Vec<DeviceSession> = Vec::new();
        while devices.len() > 0
            invariant
                forall|i: int|
                    0 <= i < sessions@.len() ==> sessions@[i].vendor_id == identity.vendor_id
                        && sessions@[i].product_id == identity.product_id,
            decreases devices@.len(),
        {
            let device = devices.remove(0);
            match usb::device_ids(&device) {
                None => {},
                Some(ids) => {
                    if identity_matches(identity, ids.0, ids.1) {
                        match usb::open_device(&device) {
                            None => {},
                            Some(handle) => {
                                sessions.push(
                                    DeviceSession {
                                        context: usb::clone_context(&context),
                                        device,
                                        handle,
                                        vendor_id: ids.0,
                                        product_id: ids.1,
                                    },
                                );
                            },
                        }
                    }
                },
            }
        }
        finalize_discovery(sessions)
    }

    /// Reads the device's first configuration descriptor and walks it
    /// into one record per endpoint, in descriptor order: index 0 is the
    /// first endpoint of the first alternate setting of the first
    /// interface. Fails with `DeviceUnavailable` when the descriptor
    /// cannot be read — the only error this operation reports.
    pub fn find_readable_endpoints(&self) -> (r: Result<Vec<Endpoint>, DeviceError>)
        ensures
            r matches Err(e) ==> e == DeviceError::DeviceUnavailable,
    {
        match usb::config_layout(&self.device) {
            Ok(layout) => Ok(flatten_endpoints(&layout)),
            Err(_) => Err(DeviceError::DeviceUnavailable),
        }
    }

    /// Queries whether a kernel driver is active on the endpoint's
    /// interface; if so, detaches it and records `DetachedByUs`. A query
    /// that fails or reports no driver yields `NotBound` without a
    /// detach attempt; only a failed detach itself is an error, reported
    /// as `DriverError`.
    pub fn detach_if_bound(&self, endpoint: &Endpoint) -> (r: Result<DriverBindingState, DeviceError>)
        ensures
            r matches Ok(s) ==> (s is DetachedByUs || s is NotBound),
            r matches Err(e) ==> e == DeviceError::DriverError,
    {
        let query = match usb::kernel_driver_active(&self.handle, endpoint.iface) {
            Ok(true) => DriverQuery::Active,
            Ok(false) => DriverQuery::Inactive,
            Err(_) => DriverQuery::Failed,
        };
        if detach_wanted(query) {
            match usb::detach_kernel_driver(&self.handle, endpoint.iface) {
                Ok(_) => Ok(DriverBindingState::DetachedByUs),
                Err(_) => Err(DeviceError::DriverError),
            }
        } else {
            Ok(DriverBindingState::NotBound)
        }
    }

    /// Re-binds the kernel driver to the endpoint's interface when — and
    /// only when — the prior state records a detach made by this
    /// library: for any other prior state this is a guaranteed no-op
    /// success. A failed reattach is reported as `DriverError`.
    pub fn reattach_if_needed(&self, endpoint: &Endpoint, prior: DriverBindingState) -> (r: Result<
        (),
        DeviceError,
    >)
        ensures
            !spec_reattach_needed(prior) ==> r == Result::<(), DeviceError>::Ok(()),
            r matches Err(e) ==> e == DeviceError::DriverError,
    {
        if reattach_needed(prior) {
            match usb::attach_kernel_driver(&self.handle, endpoint.iface) {
                Ok(_) => Ok(()),
                Err(_) => Err(DeviceError::DriverError),
            }
        } else {
            Ok(())
        }
    }

    /// Claims the interface for this process — required before any
    /// transfer. An access denial is surfaced as `PermissionDenied`,
    /// every other failure as `DriverError`.
    pub fn claim_interface(&self, iface: u8) -> (r: Result<(), DeviceError>)
        ensures
            r matches Err(e) ==> (e == DeviceError::DriverError || e == DeviceError::PermissionDenied),
    {
        match usb::claim_interface(&self.handle, iface) {
            Ok(_) => Ok(()),
            Err(f) => Err(claim_error_of(f)),
        }
    }

    /// Releases a claimed interface. A failure is reported as
    /// `DriverError`.
    pub fn release_interface(&self, iface: u8) -> (r: Result<(), DeviceError>)
        ensures
            r matches Err(e) ==> e == DeviceError::DriverError,
    {
        match usb::release_interface(&self.handle, iface) {
            Ok(_) => Ok(()),
            Err(_) => Err(DeviceError::DriverError),
        }
    }

    /// Reads the diagnostic surface of the device: the active
    /// configuration value and the manufacturer, product and
    /// serial-number strings, each string-descriptor lookup with the
    /// fixed one-second timeout. A string the device does not expose is
    /// `None` — reported by callers as "Not Found", never as a failure —
    /// while a device whose descriptor, languages or active
    /// configuration cannot be read at all yields `DriverError`.
    pub fn device_info(&self) -> (r: Result<DeviceInfo, DeviceError>)
        ensures
            r matches Err(e) ==> e == DeviceError::DriverError,
    {
        let descriptor = match usb::handle_device_descriptor(&self.handle) {
            Ok(d) => d,
            Err(_) => {
                return Err(DeviceError::DriverError);
            },
        };
        let active_configuration = match usb::active_configuration(&self.handle) {
            Ok(c) => c,
            Err(_) => {
                return Err(DeviceError::DriverError);
            },
        };
        let languages = match usb::read_languages(&self.handle, CONTROL_TIMEOUT_MS) {
            Ok(l) => l,
            Err(_) => {
                return Err(DeviceError::DriverError);
            },
        };
        let mut manufacturer: Option<String> = None;
        let mut product: Option<String> = None;
        let mut serial_number: Option<String> = None;
        if languages.len() > 0 {
            let language = &languages[0];
            manufacturer = usb::read_manufacturer_string(
                &self.handle,
                language,
                &descriptor,
                CONTROL_TIMEOUT_MS,
            );
            product = usb::read_product_string(
                &self.handle,
                language,
                &descriptor,
                CONTROL_TIMEOUT_MS,
            );
            serial_number = usb::read_serial_number_string(
                &self.handle,
                language,
                &descriptor,
                CONTROL_TIMEOUT_MS,
            );
        }
        Ok(DeviceInfo { active_configuration, manufacturer, product, serial_number })
    }

    /// Runs one report read and also returns the trace of the
    /// side-effecting steps it performed. The trace witnesses the
    /// cleanup-on-error invariant: the interface release is invoked
    /// exactly when the claim succeeded, and the kernel-driver reattach
    /// exactly when this read detached the driver — on every exit path,
    /// a failed transfer included. On success the returned bytes are the
    /// count the transfer reported, never more than `buffer_len`.
    pub fn read_report_traced(&self, buffer_len: usize) -> (r: (Result<Vec<u8>, DeviceError>, ReadTrace))
        requires
            buffer_len > 0,
        ensures
            r.1.released == r.1.claimed,
            r.1.reattached == r.1.detached,
            r.0 matches Ok(data) ==> data@.len() <= buffer_len,
            r.0 matches Err(e) ==> (e == DeviceError::DeviceUnavailable || e
                == DeviceError::NoEndpoints || e == DeviceError::DriverError || e
                == DeviceError::TransferError || e == DeviceError::PermissionDenied),
    {
        let no_steps = ReadTrace {
            detached: false,
            claimed: false,
            released: false,
            reattached: false,
        };
        let endpoints = match self.find_readable_endpoints() {
            Ok(eps) => eps,
            Err(e) => {
                return (Err(e), no_steps);
            },
        };
        let endpoint = match endpoint_at(&endpoints, REPORT_ENDPOINT_INDEX) {
            Ok(ep) => ep,
            Err(e) => {
                return (Err(e), no_steps);
            },
        };
        let binding = match self.detach_if_bound(&endpoint) {
            Ok(b) => b,
            Err(e) => {
                return (Err(e), no_steps);
            },
        };
        let detached = reattach_needed(binding);
        if let Err(e) = self.claim_interface(endpoint.iface) {
            // The claim failed: nothing to release, but a detached driver
            // is still reattached best-effort; the claim error keeps
            // priority over a reattach failure.
            let _ = self.reattach_if_needed(&endpoint, binding);
            let trace = ReadTrace {
                detached,
                claimed: false,
                released: false,
                reattached: detached,
            };
            return (Err(e), trace);
        }
        let mut buf = zero_buffer(buffer_len);
        let request_type = report_request_type();
        let mut primary: Option<DeviceError> = None;
        let mut data: Vec<u8> = Vec::new();
        match usb::read_control_report(
            &self.handle,
            request_type,
            REPORT_REQUEST,
            REPORT_VALUE,
            REPORT_INDEX,
            &mut buf,
            CONTROL_TIMEOUT_MS,
        ) {
            Ok(n) => {
                data = received_bytes(&buf, n);
            },
            Err(_) => {
                primary = Some(DeviceError::TransferError);
            },
        }
        let release_err: Option<DeviceError> = match self.release_interface(endpoint.iface) {
            Ok(_) => None,
            Err(e) => Some(e),
        };
        let reattach_err: Option<DeviceError> = match self.reattach_if_needed(&endpoint, binding) {
            Ok(_) => None,
            Err(e) => Some(e),
        };
        let trace = ReadTrace { detached, claimed: true, released: true, reattached: detached };
        match resolve_errors(primary, release_err, reattach_err) {
            Some(e) => (Err(e), trace),
            None => (Ok(data), trace),
        }
    }

    /// Reads the device report: locates the policy endpoint, detaches the
    /// kernel driver if bound, claims the interface, issues the control
    /// transfer into a fresh `buffer_len`-byte buffer, then releases the
    /// interface and reattaches the driver on every exit path. Returns
    /// the bytes the transfer reported — never more than `buffer_len` —
    /// or the first fatal error, cleanup already performed.
    pub fn get_report(&self, buffer_len: usize) -> (r: Result<Vec<u8>, DeviceError>)
        requires
            buffer_len > 0,
        ensures
            r matches Ok(data) ==> data@.len() <= buffer_len,
            r matches Err(e) ==> (e == DeviceError::DeviceUnavailable || e
                == DeviceError::NoEndpoints || e == DeviceError::DriverError || e
                == DeviceError::TransferError || e == DeviceError::PermissionDenied),
    {
        let (result, _trace) = self.read_report_traced(buffer_len);
        result
    }
}

} // verus!
