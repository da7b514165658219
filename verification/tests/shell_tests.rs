use btports::ports::device_port;
use btports::shell::{classify_version_output, query_for_version, version_probe_command, ShellVersion};

#[test]
fn classify_legacy_banner() {
    let out = "5.1.19041.2673\nsomething else\n";
    assert_eq!(classify_version_output(out), ShellVersion::Legacy);
}

#[test]
fn classify_modern_banner() {
    let out = "7.3.4\nsomething else\n";
    assert_eq!(classify_version_output(out), ShellVersion::Modern);
}

#[test]
fn classify_unsupported_banner() {
    assert_eq!(classify_version_output("6.0.0\n"), ShellVersion::Unsupported);
}

#[test]
fn classify_empty_output() {
    assert_eq!(classify_version_output(""), ShellVersion::Unsupported);
}

#[test]
fn classify_skips_header_lines() {
    // The shell prints a table whose header lines start with letters or
    // dashes; the first digit-led line carries the version.
    let out = "Major  Minor  Build  Revision\n-----  -----  -----  --------\n5      1      19041  2673\n";
    assert_eq!(classify_version_output(out), ShellVersion::Legacy);
}

#[test]
fn classify_reads_leading_digit_only() {
    // The leading digit decides, not the whole number.
    assert_eq!(classify_version_output("50.1\n"), ShellVersion::Legacy);
    assert_eq!(classify_version_output("71\n"), ShellVersion::Modern);
}

#[test]
fn classify_crlf_banner() {
    assert_eq!(classify_version_output("7.4.0\r\nrest\r\n"), ShellVersion::Modern);
}

#[test]
fn version_probe_command_text() {
    assert_eq!(version_probe_command(), "$PSVersionTable.PSVersion");
}

#[test]
fn query_for_legacy_shell() {
    let q = query_for_version(ShellVersion::Legacy).unwrap();
    assert_eq!(
        q,
        "Get-WmiObject -Query \"SELECT DeviceID, PNPDeviceID FROM Win32_SerialPort\" | Where-Object { $_.PNPDeviceID -match \"BTHENUM\" } | Select-Object DeviceID, PNPDeviceID"
    );
}

#[test]
fn query_for_modern_shell() {
    let q = query_for_version(ShellVersion::Modern).unwrap();
    assert_eq!(
        q,
        "Get-CimInstance -ClassName Win32_SerialPort | Where-Object { $_.PNPDeviceID -match \"BTHENUM\" } | Select-Object DeviceID, PNPDeviceID"
    );
}

#[test]
fn no_query_for_unsupported_shell() {
    assert!(query_for_version(ShellVersion::Unsupported).is_none());
}

#[test]
fn unsupported_lookup_returns_none_without_query() {
    // An unsupported shell never gets a query: the lookup is decided
    // from the version alone.
    let port = device_port(ShellVersion::Unsupported, &None, 0xA1B2C3D4E5);
    assert!(port.is_none());
}
