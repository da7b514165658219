use btports::report::{bool_text, device_block, no_device_message, render_report, DeviceRecord};

fn record(name: &str, address: u64, connected: bool, remembered: bool, authenticated: bool) -> DeviceRecord {
    DeviceRecord {
        name: name.to_string(),
        address,
        connected,
        remembered,
        authenticated,
    }
}

#[test]
fn bool_text_is_exact() {
    assert_eq!(bool_text(true), "true");
    assert_eq!(bool_text(false), "false");
}

#[test]
fn flags_print_exactly_in_every_combination() {
    for bits in 0u8..8 {
        let connected = bits & 1 != 0;
        let remembered = bits & 2 != 0;
        let authenticated = bits & 4 != 0;
        let d = record("X", 0x1, connected, remembered, authenticated);
        let block = device_block(&d, &None);
        let lines: Vec<&str> = block.lines().collect();
        assert_eq!(lines[2], format!("Connected:            <{}>", connected));
        assert_eq!(lines[3], format!("Remembered:           <{}>", remembered));
        assert_eq!(lines[4], format!("Authenticated:        <{}>", authenticated));
    }
}

#[test]
fn device_block_exact_text() {
    let d = record("My Headset", 0xA1B2C3D4E5, true, false, true);
    let block = device_block(&d, &Some("COM5".to_string()));
    let expected = "Device name:          <My Headset>\n\
                    Address:              <A1B2C3D4E5>\n\
                    Connected:            <true>\n\
                    Remembered:           <false>\n\
                    Authenticated:        <true>\n\
                    COM Port:             <COM5>\n\
                    ---------------------------------------------------------------------------\n";
    assert_eq!(block, expected);
}

#[test]
fn unresolved_port_prints_none_sentinel() {
    let d = record("Mouse", 0xBEEF, false, true, false);
    let block = device_block(&d, &None);
    assert!(block.contains("COM Port:             <NONE>\n"));
}

#[test]
fn no_device_message_exact() {
    assert_eq!(no_device_message(), "No bluetooth device found.\n");
}

#[test]
fn empty_report_is_exactly_the_message() {
    let devices: Vec<DeviceRecord> = Vec::new();
    let ports: Vec<Option<String>> = Vec::new();
    assert_eq!(render_report(&devices, &ports), "No bluetooth device found.\n");
}

#[test]
fn report_concatenates_blocks_in_order() {
    let a = record("A", 0x1, true, true, true);
    let b = record("B", 0x2, false, false, false);
    let ports = vec![Some("COM3".to_string()), None];
    let expected = format!(
        "{}{}",
        device_block(&a, &ports[0]),
        device_block(&b, &ports[1]),
    );
    let devices = vec![a, b];
    assert_eq!(render_report(&devices, &ports), expected);
}

#[test]
fn name_printed_as_decoded() {
    // The name buffer is decoded before it reaches the library; whatever
    // it decoded to, padding included, is printed as-is.
    let d = record("Pad\u{0}\u{0}", 0x1, false, false, false);
    let block = device_block(&d, &None);
    assert!(block.starts_with("Device name:          <Pad\u{0}\u{0}>\n"));
}
