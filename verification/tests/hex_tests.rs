use btports::hex::format_address;

#[test]
fn format_address_zero() {
    assert_eq!(format_address(0), "0");
}

#[test]
fn format_address_single_digit() {
    assert_eq!(format_address(0xA), "A");
}

#[test]
fn format_address_no_padding_uppercase() {
    assert_eq!(format_address(0xFF), "FF");
    assert_eq!(format_address(0xA1B2C3D4E5), "A1B2C3D4E5");
    assert_eq!(format_address(u64::MAX), "FFFFFFFFFFFFFFFF");
}

#[test]
fn format_address_matches_std_formatting() {
    for a in [0u64, 1, 9, 10, 15, 16, 255, 4096, 0xDEADBEEF, 0x0011223344, u64::MAX] {
        assert_eq!(format_address(a), format!("{:X}", a));
    }
}

#[test]
fn format_address_deterministic() {
    let a: u64 = 0x9C_B6_D0_E4_F2_01;
    let display = format_address(a);
    let needle = format_address(a);
    assert_eq!(display, needle);
}
