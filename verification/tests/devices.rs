use adb_agent::devices::authorization_hint;
use adb_agent::devices::format_devices;
use adb_agent::devices::is_device_healthy;
use adb_agent::devices::parse_devices;
use adb_agent::devices::DeviceInfo;

fn device(serial: &str, state: &str, details: &[&str]) -> DeviceInfo {
    DeviceInfo {
        serial: serial.to_string(),
        state: state.to_string(),
        details: details.iter().map(|d| d.to_string()).collect(),
    }
}

#[test]
fn parses_adb_devices_l_output() {
    let output = "\
List of devices attached
emulator-5554 device product:sdk_gphone64 model:sdk_gphone64 transport_id:1
192.168.1.9:5555 unauthorized
";

    let devices = parse_devices(output);

    assert_eq!(devices.len(), 2);
    assert_eq!(devices[0].serial, "emulator-5554");
    assert_eq!(devices[0].state, "device");
    assert_eq!(devices[0].details[0], "product:sdk_gphone64");
    assert_eq!(devices[1].serial, "192.168.1.9:5555");
    assert_eq!(devices[1].state, "unauthorized");
}

#[test]
fn authorization_hint_points_user_to_phone_prompt() {
    let devices = vec![DeviceInfo {
        serial: "R5CX3058KHP".to_string(),
        state: "unauthorized".to_string(),
        details: vec![],
    }];

    let hint = authorization_hint(Some("R5CX3058KHP"), &devices).unwrap();

    assert!(hint.contains("unauthorized"));
    assert!(hint.contains("unlock the phone"));
    assert!(!is_device_healthy(Some("R5CX3058KHP"), &devices));
}

#[test]
fn lines_before_the_header_and_short_lines_hold_no_device() {
    let output = "* daemon started successfully\nserial device\nList of devices attached\r\n\
                  a\tdevice\r\n\r\nlonely\n  b \t offline   x:1 \t y:2";
    let devices = parse_devices(output);
    assert_eq!(devices.len(), 2);
    assert_eq!(devices[0].serial, "a");
    assert_eq!(devices[0].state, "device");
    assert!(devices[0].details.is_empty());
    assert_eq!(devices[1].serial, "b");
    assert_eq!(devices[1].state, "offline");
    assert_eq!(devices[1].details, vec!["x:1", "y:2"]);
}

#[test]
fn output_without_a_header_lists_no_device() {
    assert!(parse_devices("a device\nb device\n").is_empty());
    assert!(parse_devices("").is_empty());
    assert!(parse_devices("List of devices attached").is_empty());
}

#[test]
fn a_second_header_is_read_as_a_device() {
    let devices = parse_devices("List of devices attached\nList of devices attached\n");
    assert_eq!(devices.len(), 1);
    assert_eq!(devices[0].serial, "List");
    assert_eq!(devices[0].state, "of");
    assert_eq!(devices[0].details, vec!["devices", "attached"]);
}

#[test]
fn listed_words_hold_no_white_space() {
    let devices = parse_devices("List of devices attached\na\u{a0}b\u{3000}c d\n");
    assert_eq!(devices[0].serial, "a");
    assert_eq!(devices[0].state, "b");
    assert_eq!(devices[0].details, vec!["c", "d"]);
}

#[test]
fn health_goes_by_serial_and_state() {
    let list = [device("a", "offline", &[]), device("b", "device", &[])];
    assert!(is_device_healthy(None, &list));
    assert!(is_device_healthy(Some("b"), &list));
    assert!(!is_device_healthy(Some("a"), &list));
    assert!(!is_device_healthy(Some("c"), &list));
    assert!(!is_device_healthy(None, &list[..1]));
    assert!(!is_device_healthy(None, &[]));
}

#[test]
fn the_hint_names_the_first_unauthorized_device_that_is_meant() {
    let list = [
        device("a", "device", &[]),
        device("b", "unauthorized", &[]),
        device("c", "unauthorized", &[]),
    ];
    assert_eq!(
        authorization_hint(None, &list).unwrap(),
        "device `b` is unauthorized; unlock the phone and accept the USB debugging RSA \
         authorization prompt, then run `adb-agent recover` again"
    );
    assert!(authorization_hint(Some("c"), &list).unwrap().starts_with("device `c` is"));
    assert!(authorization_hint(Some("a"), &list).is_none());
}

#[test]
fn devices_are_printed_with_tabs() {
    assert_eq!(format_devices(&[]), "no devices\n");
    assert_eq!(
        format_devices(&[device("a", "device", &["x:1", "y:2"]), device("b", "offline", &[])]),
        "a\tdevice\tx:1 y:2\nb\toffline\n"
    );
}

#[test]
fn printed_devices_are_read_back() {
    let list = [device("a:1", "device", &["x:1", "y"]), device("b", "unauthorized", &[])];
    let printed = format!("List of devices attached\n{}", format_devices(&list));
    let back = parse_devices(&printed);
    assert_eq!(back.len(), 2);
    assert_eq!(format_devices(&back), format_devices(&list));
    assert_eq!(back[0].details, vec!["x:1", "y"]);
    assert_eq!(back[1].state, "unauthorized");
}
