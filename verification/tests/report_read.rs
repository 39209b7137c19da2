use falcon8::binding::DriverQuery;
use falcon8::descriptor::{AltSetting, ConfigLayout, InterfaceGroup};
use falcon8::errors::{DeviceError, UsbFault};
use falcon8::report::{received_bytes, report_request_type, run_read_report, zero_buffer,
    SimulatedDevice, CONTROL_TIMEOUT_MS, REPORT_ENDPOINT_INDEX, REPORT_INDEX, REPORT_REQUEST,
    REPORT_VALUE};

fn single_endpoint_config() -> ConfigLayout {
    ConfigLayout {
        config_value: 1,
        interfaces: vec![InterfaceGroup {
            settings: vec![AltSetting { iface: 0, setting: 0, endpoint_addresses: vec![0x81] }],
        }],
    }
}

fn healthy_device(report: Vec<u8>) -> SimulatedDevice {
    SimulatedDevice {
        config: Some(single_endpoint_config()),
        driver_query: DriverQuery::Inactive,
        detach_fault: None,
        claim_fault: None,
        transfer: Ok(report),
        release_fault: None,
        reattach_fault: None,
    }
}

#[test]
fn wire_contract_constants() {
    assert_eq!(report_request_type(), 0xa1);
    assert_eq!(REPORT_REQUEST, 0x01);
    assert_eq!(REPORT_VALUE, 0x0307);
    assert_eq!(REPORT_INDEX, 0x0002);
    assert_eq!(CONTROL_TIMEOUT_MS, 1000);
    assert_eq!(REPORT_ENDPOINT_INDEX, 0);
}

#[test]
fn short_read_surfaces_the_reported_count() {
    let dev = healthy_device(vec![1, 2, 3, 4, 5, 6, 7, 8]);
    let (result, trace) = run_read_report(&dev, 64);
    assert_eq!(result, Ok(vec![1, 2, 3, 4, 5, 6, 7, 8]));
    assert_eq!(result.unwrap().len(), 8);
    assert!(trace.claimed);
    assert!(trace.released);
    assert!(!trace.detached);
    assert!(!trace.reattached);
}

#[test]
fn oversized_report_is_cut_to_the_buffer() {
    let dev = healthy_device(vec![9; 16]);
    let (result, _) = run_read_report(&dev, 4);
    assert_eq!(result, Ok(vec![9, 9, 9, 9]));
}

#[test]
fn cleanup_runs_when_the_transfer_fails() {
    let mut dev = healthy_device(vec![]);
    dev.driver_query = DriverQuery::Active;
    dev.transfer = Err(UsbFault::Timeout);
    let (result, trace) = run_read_report(&dev, 64);
    assert_eq!(result, Err(DeviceError::TransferError));
    assert!(trace.detached);
    assert!(trace.claimed);
    assert!(trace.released, "the interface must not be left claimed");
    assert!(trace.reattached, "the kernel driver must not be left detached");
}

#[test]
fn missing_configuration_is_device_unavailable() {
    let mut dev = healthy_device(vec![1]);
    dev.config = None;
    let (result, trace) = run_read_report(&dev, 8);
    assert_eq!(result, Err(DeviceError::DeviceUnavailable));
    assert!(!trace.claimed && !trace.released && !trace.detached && !trace.reattached);
}

#[test]
fn configuration_without_endpoints_is_no_endpoints() {
    let mut dev = healthy_device(vec![1]);
    dev.config = Some(ConfigLayout { config_value: 1, interfaces: vec![] });
    let (result, _) = run_read_report(&dev, 8);
    assert_eq!(result, Err(DeviceError::NoEndpoints));
}

#[test]
fn failed_detach_is_a_driver_error_with_no_cleanup_owed() {
    let mut dev = healthy_device(vec![1]);
    dev.driver_query = DriverQuery::Active;
    dev.detach_fault = Some(UsbFault::Other);
    let (result, trace) = run_read_report(&dev, 8);
    assert_eq!(result, Err(DeviceError::DriverError));
    assert!(!trace.detached && !trace.claimed && !trace.released && !trace.reattached);
}

#[test]
fn failed_query_skips_the_detach() {
    let mut dev = healthy_device(vec![5]);
    dev.driver_query = DriverQuery::Failed;
    dev.detach_fault = Some(UsbFault::Other);
    let (result, trace) = run_read_report(&dev, 8);
    assert_eq!(result, Ok(vec![5]));
    assert!(!trace.detached && !trace.reattached);
}

#[test]
fn denied_claim_is_permission_denied_and_still_reattaches() {
    let mut dev = healthy_device(vec![1]);
    dev.driver_query = DriverQuery::Active;
    dev.claim_fault = Some(UsbFault::PermissionDenied);
    let (result, trace) = run_read_report(&dev, 8);
    assert_eq!(result, Err(DeviceError::PermissionDenied));
    assert!(trace.detached);
    assert!(!trace.claimed && !trace.released);
    assert!(trace.reattached, "a detached driver is reattached even when the claim fails");
}

#[test]
fn disconnect_during_claim_is_a_driver_error() {
    let mut dev = healthy_device(vec![1]);
    dev.claim_fault = Some(UsbFault::Disconnected);
    let (result, _) = run_read_report(&dev, 8);
    assert_eq!(result, Err(DeviceError::DriverError));
}

#[test]
fn disconnect_during_transfer_is_a_transfer_error() {
    let mut dev = healthy_device(vec![1]);
    dev.transfer = Err(UsbFault::Disconnected);
    let (result, _) = run_read_report(&dev, 8);
    assert_eq!(result, Err(DeviceError::TransferError));
}

#[test]
fn cleanup_failure_surfaces_only_without_an_earlier_error() {
    let mut dev = healthy_device(vec![1]);
    dev.release_fault = Some(UsbFault::Other);
    let (result, _) = run_read_report(&dev, 8);
    assert_eq!(result, Err(DeviceError::DriverError));

    let mut dev = healthy_device(vec![1]);
    dev.transfer = Err(UsbFault::Timeout);
    dev.release_fault = Some(UsbFault::Other);
    let (result, _) = run_read_report(&dev, 8);
    assert_eq!(result, Err(DeviceError::TransferError), "the first error keeps priority");

    let mut dev = healthy_device(vec![1]);
    dev.driver_query = DriverQuery::Active;
    dev.reattach_fault = Some(UsbFault::Disconnected);
    let (result, trace) = run_read_report(&dev, 8);
    assert_eq!(result, Err(DeviceError::DriverError));
    assert!(trace.reattached);
}

#[test]
fn zero_buffer_is_zeroed_and_sized() {
    let buf = zero_buffer(64);
    assert_eq!(buf.len(), 64);
    assert!(buf.iter().all(|b| *b == 0));
}

#[test]
fn received_bytes_takes_at_most_the_buffer() {
    let bytes = vec![1, 2, 3, 4];
    assert_eq!(received_bytes(&bytes, 8), vec![1, 2, 3, 4]);
    assert_eq!(received_bytes(&bytes, 2), vec![1, 2]);
    assert_eq!(received_bytes(&bytes, 4), vec![1, 2, 3, 4]);
}
