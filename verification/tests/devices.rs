use wiz_rpc::error::{QueryError, SerializationError};
use wiz_rpc::mac::parse_mac_address;
use wiz_rpc::model::{IpAddress, ResponseParams, WizRPCResponse};
use wiz_rpc::registry::{
    client_settings, require_result, target_from_config, DeviceRegistry, DEFAULT_DATA_TIMEOUT_MS,
    DEFAULT_RETRIES, DEFAULT_SOURCE_SEND_PORT,
};
use wiz_rpc::{Method, Target};

fn config(mac: Option<&str>) -> ResponseParams {
    ResponseParams {
        mac: mac.map(|m| m.to_string()),
        home_id: None,
        room_id: None,
        group_id: None,
        rgn: None,
        module_name: None,
        fw_version: None,
        drv_conf: None,
        ping: None,
        fade_in: None,
        fade_out: None,
        fade_night: None,
        dft_dim: None,
        po: None,
        min_dimming: None,
        rssi: None,
        src: None,
        state: None,
        scene_id: None,
        temp: None,
        dimming: None,
        success: None,
    }
}

fn target(last: u8) -> Target {
    Target { address: IpAddress::V4([192, 168, 1, last]), mac: [0, 1, 2, 3, 4, last] }
}

#[test]
fn mac_addresses_parse_as_hex_pairs() {
    assert_eq!(parse_mac_address("a8bb50AABBcc").unwrap(), [0xa8, 0xbb, 0x50, 0xaa, 0xbb, 0xcc]);
    assert_eq!(parse_mac_address("000000000000").unwrap(), [0; 6]);
    assert_eq!(parse_mac_address("ffFFffFFffFF").unwrap(), [255; 6]);
    assert_eq!(parse_mac_address("+f+F00000001").unwrap(), [15, 15, 0, 0, 0, 1]);
}

#[test]
fn mac_addresses_of_the_wrong_length_fail() {
    for text in ["", "a8bb50aabbc", "a8bb50aabbcc0", "a8:bb:50:aa:bb:cc"] {
        assert!(matches!(
            parse_mac_address(text),
            Err(QueryError::Serialization(SerializationError::MacAddressError))
        ));
    }
}

#[test]
fn registered_devices_are_found_by_name() {
    let mut devices = DeviceRegistry::new();
    assert!(devices.insert("Office".to_string(), target(1)).is_none());
    assert!(devices.insert("Room".to_string(), target(2)).is_none());
    assert_eq!(devices.get(&"Office".to_string()).unwrap().mac, [0, 1, 2, 3, 4, 1]);
    assert_eq!(devices.get_device(Some("Room".to_string())).unwrap().mac[5], 2);
    assert!(devices.get(&"Hall".to_string()).is_none());
}

#[test]
fn registering_again_replaces_the_device() {
    let mut devices = DeviceRegistry::new();
    devices.insert("Office".to_string(), target(1));
    let old = devices.insert("Office".to_string(), target(9)).unwrap();
    assert_eq!(old.mac[5], 1);
    assert_eq!(devices.get(&"Office".to_string()).unwrap().mac[5], 9);
}

#[test]
fn requests_without_a_known_device_have_no_target() {
    let mut devices = DeviceRegistry::new();
    devices.insert("Office".to_string(), target(1));
    assert!(matches!(devices.get_device(None), Err(QueryError::NoTarget)));
    assert!(matches!(devices.get_device(Some("office".to_string())), Err(QueryError::NoTarget)));
}

#[test]
fn client_settings_default_missing_options() {
    let s = client_settings(None, None, None);
    assert_eq!(s.bind_port, DEFAULT_SOURCE_SEND_PORT);
    assert_eq!(s.bind_port, 39901);
    assert_eq!(s.data_timeout_ms, DEFAULT_DATA_TIMEOUT_MS);
    assert_eq!(s.retries, DEFAULT_RETRIES);
    let s = client_settings(Some(1000), Some(5), Some(2));
    assert_eq!((s.bind_port, s.data_timeout_ms, s.retries), (1000, 5, 2));
}

#[test]
fn replies_must_carry_a_result() {
    let with = WizRPCResponse { method: Method::GetSystemConfig, result: Some(config(Some("x"))), fingerprint: None };
    assert_eq!(require_result(with).unwrap().mac.as_deref(), Some("x"));
    let without = WizRPCResponse { method: Method::GetSystemConfig, result: None, fingerprint: None };
    assert!(matches!(
        require_result(without),
        Err(QueryError::Serialization(SerializationError::ValueDeserialization))
    ));
}

#[test]
fn targets_come_from_system_configs() {
    let t = target_from_config(IpAddress::V4([10, 0, 0, 7]), &config(Some("a8bb50aabbcc"))).unwrap();
    assert_eq!(t.mac, [0xa8, 0xbb, 0x50, 0xaa, 0xbb, 0xcc]);
    assert!(matches!(t.address, IpAddress::V4([10, 0, 0, 7])));
    assert!(matches!(
        target_from_config(IpAddress::V4([10, 0, 0, 7]), &config(Some("a8bb50"))),
        Err(QueryError::Serialization(SerializationError::MacAddressError))
    ));
}
