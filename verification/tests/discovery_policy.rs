use falcon8::discovery::{finalize_discovery, identity_matches, simulate_discover, DeviceIdentity,
    SimulatedHostDevice};
use falcon8::errors::{claim_error_of, resolve_errors, DeviceError, UsbFault};

const IDENTITY: DeviceIdentity = DeviceIdentity { vendor_id: 0x1234, product_id: 0xabcd };

fn host_device(ids: Option<(u16, u16)>, openable: bool) -> SimulatedHostDevice {
    SimulatedHostDevice {
        descriptor: ids.map(|(vendor_id, product_id)| DeviceIdentity { vendor_id, product_id }),
        openable,
    }
}

#[test]
fn identity_matches_both_identifiers() {
    assert!(identity_matches(IDENTITY, 0x1234, 0xabcd));
    assert!(!identity_matches(IDENTITY, 0x1234, 0x0001));
    assert!(!identity_matches(IDENTITY, 0x0001, 0xabcd));
}

#[test]
fn only_matching_openable_devices_become_sessions() {
    let devices = vec![
        host_device(Some((0x9999, 0x0001)), true),
        host_device(Some((0x1234, 0xabcd)), true),
        host_device(None, true),
        host_device(Some((0x1234, 0xabcd)), false),
        host_device(Some((0x1234, 0xabcd)), true),
    ];
    assert_eq!(simulate_discover(&devices, IDENTITY), Ok(vec![1, 4]));
}

#[test]
fn no_opened_session_is_not_found() {
    let devices = vec![
        host_device(Some((0x9999, 0x0001)), true),
        host_device(None, true),
        host_device(Some((0x1234, 0xabcd)), false),
    ];
    assert_eq!(simulate_discover(&devices, IDENTITY), Err(DeviceError::NotFound));
    let empty: Vec<SimulatedHostDevice> = vec![];
    assert_eq!(simulate_discover(&empty, IDENTITY), Err(DeviceError::NotFound));
}

#[test]
fn finalize_discovery_fails_exactly_on_an_empty_list() {
    let none: Vec<u32> = vec![];
    assert_eq!(finalize_discovery(none), Err(DeviceError::NotFound));
    assert_eq!(finalize_discovery(vec![7u32, 9u32]), Ok(vec![7u32, 9u32]));
}

#[test]
fn claim_faults_map_to_permission_or_driver_errors() {
    assert_eq!(claim_error_of(UsbFault::PermissionDenied), DeviceError::PermissionDenied);
    assert_eq!(claim_error_of(UsbFault::Disconnected), DeviceError::DriverError);
    assert_eq!(claim_error_of(UsbFault::Timeout), DeviceError::DriverError);
    assert_eq!(claim_error_of(UsbFault::Other), DeviceError::DriverError);
}

#[test]
fn error_priority_is_primary_then_release_then_reattach() {
    let t = Some(DeviceError::TransferError);
    let d = Some(DeviceError::DriverError);
    assert_eq!(resolve_errors(None, None, None), None);
    assert_eq!(resolve_errors(t, d, d), t);
    assert_eq!(resolve_errors(None, d, Some(DeviceError::PermissionDenied)), d);
    assert_eq!(resolve_errors(None, None, d), d);
}
