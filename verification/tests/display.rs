use pauza::display::{dec_string, format_mm_ss, pad2_string, str_eq};

#[test]
fn decimal_digits() {
    assert_eq!(dec_string(0), "0");
    assert_eq!(dec_string(7), "7");
    assert_eq!(dec_string(10), "10");
    assert_eq!(dec_string(123), "123");
    assert_eq!(dec_string(u64::MAX), "18446744073709551615");
}

#[test]
fn two_digit_padding() {
    assert_eq!(pad2_string(0), "00");
    assert_eq!(pad2_string(5), "05");
    assert_eq!(pad2_string(59), "59");
    assert_eq!(pad2_string(123), "123");
}

#[test]
fn mm_ss_rendering() {
    assert_eq!(format_mm_ss(0), " 00:00 ");
    assert_eq!(format_mm_ss(61), " 01:01 ");
    assert_eq!(format_mm_ss(1501), " 25:01 ");
    assert_eq!(format_mm_ss(2700), " 45:00 ");
    assert_eq!(format_mm_ss(6000), " 100:00 ");
}

#[test]
fn string_equality() {
    assert!(str_eq("", ""));
    assert!(str_eq("ssid", "ssid"));
    assert!(!str_eq("ssid", "ssi"));
    assert!(!str_eq("ssid", "ssie"));
    assert!(str_eq("čaj ☕", "čaj ☕"));
    assert!(!str_eq("čaj", "caj"));
}
