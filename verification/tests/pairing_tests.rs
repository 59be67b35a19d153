use mumu_remote::pairing::{
    default_control_port, default_pair_port, generate_token, make_device_from_pairing,
    make_pairing_info, make_pairing_info_with_control, upsert_device, PairedDevice, PairingStore,
};

#[test]
fn token_has_expected_length_and_is_hex() {
    let token = generate_token();
    assert_eq!(token.len(), 32);
    assert!(token.chars().all(|c| c.is_ascii_hexdigit()));
}

#[test]
fn tokens_differ() {
    assert_ne!(generate_token(), generate_token());
}

#[test]
fn pairing_info_fields() {
    let info = make_pairing_info("192.168.0.10", 5000);
    assert_eq!(info.ip, "192.168.0.10");
    assert_eq!(info.port, 5000);
    assert_eq!(info.control_port, 5001);
    assert_eq!(info.pair_port, 56000);
    assert_eq!(info.token.len(), 32);
    let info2 = make_pairing_info_with_control("10.0.0.1", 6000, 6001);
    assert_eq!(info2.control_port, 6001);
    assert_eq!(default_control_port(), 5001);
    assert_eq!(default_pair_port(), 56000);
}

fn device(id: &str, name: &str) -> PairedDevice {
    PairedDevice {
        name: name.to_string(),
        ip: "192.168.1.10".to_string(),
        port: 5000,
        control_port: 5001,
        device_id: id.to_string(),
    }
}

#[test]
fn device_from_pairing_uses_token_as_id() {
    let info = make_pairing_info("192.168.1.10", 5000);
    let d = make_device_from_pairing("My PC", &info);
    assert_eq!(d.name, "My PC");
    assert_eq!(d.ip, "192.168.1.10");
    assert_eq!(d.device_id, info.token);
}

#[test]
fn upsert_replaces_same_id_and_appends_new() {
    let mut store = PairingStore::default();
    upsert_device(&mut store, device("a", "first"));
    upsert_device(&mut store, device("b", "second"));
    upsert_device(&mut store, device("a", "renamed"));
    assert_eq!(store.devices.len(), 2);
    assert_eq!(store.devices[0].name, "renamed");
    assert_eq!(store.devices[1].name, "second");
    let once = store.clone();
    upsert_device(&mut store, device("a", "renamed"));
    assert_eq!(store, once);
}
