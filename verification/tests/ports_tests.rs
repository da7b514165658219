use btports::ports::{device_port, extract_port};
use btports::shell::ShellVersion;
use btports::strutil::{chars_to_string, str_to_chars};

#[test]
fn no_com_line_gives_none() {
    let out = "DeviceID  PNPDeviceID\n--------  -----------\n";
    assert!(extract_port(out, 0xA1B2C3D4E5).is_none());
}

#[test]
fn com_line_without_address_gives_none() {
    let out = "COM3  BTHENUM\\{...}_PID&0000\\8&2A00000&0&001122334455_C00000000\n";
    assert!(extract_port(out, 0xA1B2C3D4E5).is_none());
}

#[test]
fn single_matching_line_gives_first_token() {
    let out = "COM5  BTHENUM\\{...}\\8&2A00000&0&A1B2C3D4E5_C00000000\n";
    assert_eq!(extract_port(out, 0xA1B2C3D4E5).unwrap(), "COM5");
}

#[test]
fn first_of_two_matching_lines_wins() {
    let out = "COM5  BTHENUM\\...A1B2C3D4E5...\nCOM7  BTHENUM\\...A1B2C3D4E5...\n";
    assert_eq!(extract_port(out, 0xA1B2C3D4E5).unwrap(), "COM5");
}

#[test]
fn matching_is_case_sensitive_uppercase() {
    // The needle is the uppercase hex rendering; a path that embeds the
    // address in lowercase does not match.
    let out = "COM5  BTHENUM\\...a1b2c3d4e5...\n";
    assert!(extract_port(out, 0xA1B2C3D4E5).is_none());
}

#[test]
fn non_com_line_with_address_gives_none() {
    // The address alone does not resolve a port: the line must start
    // with COM.
    let out = "SerialPort  BTHENUM\\...A1B2C3D4E5...\n";
    assert!(extract_port(out, 0xA1B2C3D4E5).is_none());
}

#[test]
fn address_digits_only_match_within_line() {
    // A short address can occur inside a longer digit run: the match is
    // by substring, an approximate lookup.
    let out = "COM9  BTHENUM\\...FFAB12FF...\n";
    assert_eq!(extract_port(out, 0xAB12).unwrap(), "COM9");
}

#[test]
fn needle_split_across_lines_does_not_match() {
    // The address must occur within one line; a run broken by a line
    // break is no match.
    let out = "COM5  BTHENUM\\...A1B2\nC3D4E5...\n";
    assert!(extract_port(out, 0xA1B2C3D4E5).is_none());
}

#[test]
fn supported_lookup_extracts_port() {
    let out = "COM5  BTHENUM\\...A1B2C3D4E5...\n".to_string();
    let port = device_port(ShellVersion::Legacy, &Some(out), 0xA1B2C3D4E5);
    assert_eq!(port.unwrap(), "COM5");
}

#[test]
fn round_trip_chars() {
    let v = str_to_chars("COM5 a\u{1F600}b");
    assert_eq!(chars_to_string(&v), "COM5 a\u{1F600}b");
}

#[test]
fn chars_to_string_builds_each_char() {
    let v = vec!['C', 'O', 'M', '9'];
    assert_eq!(chars_to_string(&v), "COM9");
}
