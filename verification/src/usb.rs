//! Trusted boundary to the USB stack (the `rusb` crate): external type
//! declarations and one thin wrapper around each call the library makes.
//! Verus believes the contracts stated here without reading the bodies;
//! each doc comment names the `rusb` item relied on. Every result that
//! depends on the host's devices is left unconstrained: the verified
//! callers state what holds whatever comes back.

use vstd::prelude::*;

use rusb::UsbContext;

use crate::descriptor::{AltSetting, ConfigLayout, InterfaceGroup};
use crate::errors::UsbFault;

verus! {

#[verifier::external_type_specification]
#[verifier::external_body]
pub struct ExContext(rusb::Context);

#[verifier::external_type_specification]
#[verifier::external_body]
pub struct ExError(rusb::Error);

/// A reference to one enumerated USB device. The `rusb::Device` value
/// inside is opaque to Verus: declaring the type itself is refused, as
/// its type parameter is bounded by the outside trait
/// `rusb::UsbContext`.
#[verifier::external_body]
pub struct UsbDevice {
    inner: rusb::Device<rusb::Context>,
}

/// An opened communication handle to one USB device, opaque to Verus for
/// the same reason as `UsbDevice`.
#[verifier::external_body]
pub struct UsbHandle {
    inner: rusb::DeviceHandle<rusb::Context>,
}

/// Relies on `rusb::Error`: classifies the USB stack's error values into
/// the library's fault kinds — `NoDevice` is a disconnection, `Access` a
/// permission denial, `Timeout` a timeout, everything else `Other`.
#[verifier::external_body]
pub(crate) fn fault_of(e: rusb::Error) -> UsbFault {
    match e {
        rusb::Error::NoDevice => UsbFault::Disconnected,
        rusb::Error::Access => UsbFault::PermissionDenied,
        rusb::Error::Timeout => UsbFault::Timeout,
        _ => UsbFault::Other,
    }
}

/// Relies on `rusb::Context::new`: initialises a fresh libusb context.
#[verifier::external_body]
pub(crate) fn new_context() -> Result<rusb::Context, UsbFault> {
    rusb::Context::new().map_err(fault_of)
}

/// Relies on `rusb::Context::clone`: hands out another owner of the same
/// underlying libusb context, so each session can hold one while the
/// context stays alive as long as any session does.
#[verifier::external_body]
pub(crate) fn clone_context(context: &rusb::Context) -> rusb::Context {
    context.clone()
}

/// Relies on `rusb::UsbContext::devices` and `rusb::DeviceList::iter`:
/// every USB device currently visible to the host, in enumeration order.
#[verifier::external_body]
pub(crate) fn list_devices(context: &rusb::Context) -> Result<Vec<UsbDevice>, UsbFault> {
    Ok(context.devices().map_err(fault_of)?.iter().map(|d| UsbDevice { inner: d }).collect())
}

/// Relies on `rusb::Device::device_descriptor`,
/// `rusb::DeviceDescriptor::vendor_id` and
/// `rusb::DeviceDescriptor::product_id`: the device's identifiers, or
/// `None` when its descriptor cannot be read.
#[verifier::external_body]
pub(crate) fn device_ids(device: &UsbDevice) -> Option<(u16, u16)> {
    match device.inner.device_descriptor() {
        Ok(d) => Some((d.vendor_id(), d.product_id())),
        Err(_) => None,
    }
}

/// Relies on `rusb::Device::open`: a communication handle to the device,
/// or `None` when opening fails (missing permission included).
#[verifier::external_body]
pub(crate) fn open_device(device: &UsbDevice) -> Option<UsbHandle> {
    device.inner.open().ok().map(|h| UsbHandle { inner: h })
}

/// Relies on `rusb::Device::config_descriptor` for the first
/// configuration (index 0) and on the accessors of the returned
/// descriptor tree (`ConfigDescriptor::number`,
/// `ConfigDescriptor::interfaces`, `Interface::descriptors`,
/// `InterfaceDescriptor::interface_number`,
/// `InterfaceDescriptor::setting_number`,
/// `InterfaceDescriptor::endpoint_descriptors`,
/// `EndpointDescriptor::address`): copies the tree one for one into the
/// library's plain-value layout, preserving descriptor order.
#[verifier::external_body]
pub(crate) fn config_layout(device: &UsbDevice) -> Result<ConfigLayout, UsbFault> {
    let c = device.inner.config_descriptor(0).map_err(fault_of)?;
    let interfaces = c.interfaces().map(
        |i| InterfaceGroup {
            settings: i.descriptors().map(
                |d| AltSetting {
                    iface: d.interface_number(),
                    setting: d.setting_number(),
                    endpoint_addresses: d.endpoint_descriptors().map(|e| e.address()).collect(),
                },
            ).collect(),
        },
    ).collect();
    Ok(ConfigLayout { config_value: c.number(), interfaces })
}

#[verifier::external_type_specification]
#[verifier::external_body]
pub struct ExDeviceDescriptor(rusb::DeviceDescriptor);

#[verifier::external_type_specification]
#[verifier::external_body]
pub struct ExLanguage(rusb::Language);

/// Relies on `rusb::DeviceHandle::device` and
/// `rusb::Device::device_descriptor`: the descriptor of the device this
/// handle was opened on.
#[verifier::external_body]
pub(crate) fn handle_device_descriptor(handle: &UsbHandle) -> Result<
    rusb::DeviceDescriptor,
    UsbFault,
> {
    handle.inner.device().device_descriptor().map_err(fault_of)
}

/// Relies on `rusb::DeviceHandle::active_configuration`: the
/// configuration value of the device's active configuration.
#[verifier::external_body]
pub(crate) fn active_configuration(handle: &UsbHandle) -> Result<u8, UsbFault> {
    handle.inner.active_configuration().map_err(fault_of)
}

/// Relies on `rusb::DeviceHandle::read_languages`: the languages the
/// device's string descriptors support.
#[verifier::external_body]
pub(crate) fn read_languages(handle: &UsbHandle, timeout_ms: u64) -> Result<
    Vec<rusb::Language>,
    UsbFault,
> {
    let timeout = core::time::Duration::from_millis(timeout_ms);
    handle.inner.read_languages(timeout).map_err(fault_of)
}

/// Relies on `rusb::DeviceHandle::read_manufacturer_string`: the
/// device's manufacturer string in the given language, or `None` when
/// the device does not expose one.
#[verifier::external_body]
pub(crate) fn read_manufacturer_string(
    handle: &UsbHandle,
    language: &rusb::Language,
    descriptor: &rusb::DeviceDescriptor,
    timeout_ms: u64,
) -> Option<String> {
    let timeout = core::time::Duration::from_millis(timeout_ms);
    handle.inner.read_manufacturer_string(*language, descriptor, timeout).ok()
}

/// Relies on `rusb::DeviceHandle::read_product_string`: the device's
/// product string in the given language, or `None` when the device does
/// not expose one.
#[verifier::external_body]
pub(crate) fn read_product_string(
    handle: &UsbHandle,
    language: &rusb::Language,
    descriptor: &rusb::DeviceDescriptor,
    timeout_ms: u64,
) -> Option<String> {
    let timeout = core::time::Duration::from_millis(timeout_ms);
    handle.inner.read_product_string(*language, descriptor, timeout).ok()
}

/// Relies on `rusb::DeviceHandle::read_serial_number_string`: the
/// device's serial-number string in the given language, or `None` when
/// the device does not expose one.
#[verifier::external_body]
pub(crate) fn read_serial_number_string(
    handle: &UsbHandle,
    language: &rusb::Language,
    descriptor: &rusb::DeviceDescriptor,
    timeout_ms: u64,
) -> Option<String> {
    let timeout = core::time::Duration::from_millis(timeout_ms);
    handle.inner.read_serial_number_string(*language, descriptor, timeout).ok()
}

/// Relies on `rusb::DeviceHandle::kernel_driver_active`: whether a kernel
/// driver is bound to the interface.
#[verifier::external_body]
pub(crate) fn kernel_driver_active(
    handle: &UsbHandle,
    iface: u8,
) -> Result<bool, UsbFault> {
    handle.inner.kernel_driver_active(iface).map_err(fault_of)
}

/// Relies on `rusb::DeviceHandle::detach_kernel_driver`: detaches the
/// kernel driver bound to the interface.
#[verifier::external_body]
pub(crate) fn detach_kernel_driver(
    handle: &UsbHandle,
    iface: u8,
) -> Result<(), UsbFault> {
    handle.inner.detach_kernel_driver(iface).map_err(fault_of)
}

/// Relies on `rusb::DeviceHandle::attach_kernel_driver`: re-binds the
/// kernel driver to the interface.
#[verifier::external_body]
pub(crate) fn attach_kernel_driver(
    handle: &UsbHandle,
    iface: u8,
) -> Result<(), UsbFault> {
    handle.inner.attach_kernel_driver(iface).map_err(fault_of)
}

/// Relies on `rusb::DeviceHandle::claim_interface`: claims the interface
/// for this process.
#[verifier::external_body]
pub(crate) fn claim_interface(
    handle: &UsbHandle,
    iface: u8,
) -> Result<(), UsbFault> {
    handle.inner.claim_interface(iface).map_err(fault_of)
}

/// Relies on `rusb::DeviceHandle::release_interface`: releases a claimed
/// interface.
#[verifier::external_body]
pub(crate) fn release_interface(
    handle: &UsbHandle,
    iface: u8,
) -> Result<(), UsbFault> {
    handle.inner.release_interface(iface).map_err(fault_of)
}

/// Relies on `rusb::DeviceHandle::read_control`: issues a control
/// transfer that reads into `buf` and reports how many bytes were
/// written. Its documentation promises the count of bytes read, which
/// cannot exceed the buffer handed to it; the buffer keeps its length.
#[verifier::external_body]
pub(crate) fn read_control_report(
    handle: &UsbHandle,
    request_type: u8,
    request: u8,
    value: u16,
    index: u16,
    buf: &mut Vec<u8>,
    timeout_ms: u64,
) -> (r: Result<usize, UsbFault>)
    ensures
        final(buf)@.len() == old(buf)@.len(),
        r matches Ok(n) ==> n <= old(buf)@.len(),
{
    let timeout = core::time::Duration::from_millis(timeout_ms);
    handle.inner.read_control(request_type, request, value, index, buf.as_mut_slice(), timeout).map_err(
        fault_of,
    )
}

} // verus!
