use falcon8::descriptor::{endpoint_at, flatten_endpoints, AltSetting, ConfigLayout, Endpoint,
    InterfaceGroup};
use falcon8::errors::DeviceError;

fn setting(iface: u8, setting: u8, addrs: Vec<u8>) -> AltSetting {
    AltSetting { iface, setting, endpoint_addresses: addrs }
}

#[test]
fn single_endpoint_layout_yields_one_record() {
    let layout = ConfigLayout {
        config_value: 1,
        interfaces: vec![InterfaceGroup { settings: vec![setting(0, 0, vec![0x81])] }],
    };
    let endpoints = flatten_endpoints(&layout);
    assert_eq!(endpoints.len(), 1);
    assert_eq!(endpoints[0], Endpoint { config: 1, iface: 0, setting: 0, address: 0x81 });
}

#[test]
fn walk_preserves_interface_setting_endpoint_order() {
    let layout = ConfigLayout {
        config_value: 2,
        interfaces: vec![
            InterfaceGroup {
                settings: vec![setting(0, 0, vec![0x81, 0x02]), setting(0, 1, vec![0x83])],
            },
            InterfaceGroup { settings: vec![setting(1, 0, vec![0x84])] },
        ],
    };
    let endpoints = flatten_endpoints(&layout);
    let expected = vec![
        Endpoint { config: 2, iface: 0, setting: 0, address: 0x81 },
        Endpoint { config: 2, iface: 0, setting: 0, address: 0x02 },
        Endpoint { config: 2, iface: 0, setting: 1, address: 0x83 },
        Endpoint { config: 2, iface: 1, setting: 0, address: 0x84 },
    ];
    assert_eq!(endpoints, expected);
}

#[test]
fn empty_layout_yields_no_records() {
    let layout = ConfigLayout { config_value: 1, interfaces: vec![] };
    let endpoints = flatten_endpoints(&layout);
    assert!(endpoints.is_empty());
}

#[test]
fn interface_without_endpoints_yields_no_records() {
    let layout = ConfigLayout {
        config_value: 1,
        interfaces: vec![InterfaceGroup { settings: vec![setting(0, 0, vec![])] }],
    };
    assert!(flatten_endpoints(&layout).is_empty());
}

#[test]
fn endpoint_at_picks_by_index_or_reports_no_endpoints() {
    let endpoints = vec![
        Endpoint { config: 1, iface: 0, setting: 0, address: 0x81 },
        Endpoint { config: 1, iface: 0, setting: 0, address: 0x02 },
    ];
    assert_eq!(
        endpoint_at(&endpoints, 0),
        Ok(Endpoint { config: 1, iface: 0, setting: 0, address: 0x81 })
    );
    assert_eq!(
        endpoint_at(&endpoints, 1),
        Ok(Endpoint { config: 1, iface: 0, setting: 0, address: 0x02 })
    );
    assert_eq!(endpoint_at(&endpoints, 2), Err(DeviceError::NoEndpoints));
    let none: Vec<Endpoint> = vec![];
    assert_eq!(endpoint_at(&none, 0), Err(DeviceError::NoEndpoints));
}
