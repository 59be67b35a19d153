use mumu_remote::adb::AdbClient;
use mumu_remote::text::{i32_to_decimal, u32_to_decimal};

#[test]
fn default_target_and_connect() {
    let adb = AdbClient::from_env_value(None);
    assert_eq!(adb.connect_args(), vec!["connect", "127.0.0.1:7555"]);
    let other = AdbClient::from_env_value(Some("emulator-5554".to_string()));
    assert_eq!(other.connect_args(), vec!["connect", "emulator-5554"]);
}

#[test]
fn tap_swipe_and_key_arguments() {
    let adb = AdbClient::from_env_value(None);
    assert_eq!(
        adb.tap(12, -3),
        vec!["-s", "127.0.0.1:7555", "shell", "input", "tap", "12", "-3"]
    );
    assert_eq!(
        adb.swipe(0, 1, 2, 3, 8),
        vec!["-s", "127.0.0.1:7555", "shell", "input", "swipe", "0", "1", "2", "3", "8"]
    );
    assert_eq!(
        adb.keyevent("187"),
        vec!["-s", "127.0.0.1:7555", "shell", "input", "keyevent", "187"]
    );
}

#[test]
fn decimal_text() {
    assert_eq!(i32_to_decimal(0), "0");
    assert_eq!(i32_to_decimal(-2147483648), "-2147483648");
    assert_eq!(i32_to_decimal(2147483647), "2147483647");
    assert_eq!(u32_to_decimal(56000), "56000");
}
