use pauza::power::{power_block, BatteryStatus};
use pauza::text::parse_i32;
use pauza::wifi::{parse_iw_output, wifi_block, WifiStatus};

#[test]
fn integers_parse() {
    assert_eq!(parse_i32("0"), Some(0));
    assert_eq!(parse_i32("85"), Some(85));
    assert_eq!(parse_i32("+7"), Some(7));
    assert_eq!(parse_i32("-15"), Some(-15));
    assert_eq!(parse_i32("00015"), Some(15));
    assert_eq!(parse_i32("2147483647"), Some(i32::MAX));
    assert_eq!(parse_i32("-2147483648"), Some(i32::MIN));
}

#[test]
fn malformed_integers_do_not_parse() {
    assert_eq!(parse_i32(""), None);
    assert_eq!(parse_i32("-"), None);
    assert_eq!(parse_i32("+"), None);
    assert_eq!(parse_i32(" 1"), None);
    assert_eq!(parse_i32("1 "), None);
    assert_eq!(parse_i32("12a"), None);
    assert_eq!(parse_i32("1.5"), None);
    assert_eq!(parse_i32("--3"), None);
    assert_eq!(parse_i32("2147483648"), None);
    assert_eq!(parse_i32("-2147483649"), None);
    assert_eq!(parse_i32("99999999999999999999"), None);
}

#[test]
fn battery_status_from_supply_line() {
    assert_eq!(BatteryStatus::from_str("Charging"), BatteryStatus::Charging);
    assert_eq!(BatteryStatus::from_str("Discharging"), BatteryStatus::Discharging);
    assert_eq!(BatteryStatus::from_str("Not charging"), BatteryStatus::NotCharging);
    assert_eq!(BatteryStatus::from_str("Full"), BatteryStatus::Full);
    assert_eq!(BatteryStatus::from_str("charging"), BatteryStatus::Unknown);
    assert_eq!(BatteryStatus::from_str(""), BatteryStatus::Unknown);
}

#[test]
fn battery_status_emoji() {
    assert_eq!(BatteryStatus::Charging.emoji(), "⚡");
    assert_eq!(BatteryStatus::Discharging.emoji(), "🔋");
    assert_eq!(BatteryStatus::NotCharging.emoji(), "❌");
    assert_eq!(BatteryStatus::Full.emoji(), "");
    assert_eq!(BatteryStatus::Unknown.emoji(), "");
}

#[test]
fn power_block_text_and_highlight() {
    let b = power_block(true, BatteryStatus::Charging, Some("85"));
    assert_eq!(b.full_text, " 🔌⚡85% ");
    assert!(b.background.is_none());

    // a discharging battery at or under the threshold turns the warning on
    let b = power_block(false, BatteryStatus::Discharging, Some("15"));
    assert_eq!(b.full_text, " 🔋15% ");
    assert_eq!(b.background.as_deref(), Some("FF4500"));

    let b = power_block(false, BatteryStatus::Discharging, Some("16"));
    assert!(b.background.is_none());

    // charging at a low capacity is no warning
    let b = power_block(true, BatteryStatus::Charging, Some("5"));
    assert!(b.background.is_none());

    // an unreadable capacity shows nothing and warns of nothing
    let b = power_block(false, BatteryStatus::Discharging, None);
    assert_eq!(b.full_text, " 🔋 ");
    assert!(b.background.is_none());

    // a capacity that does not parse still shows as text
    let b = power_block(false, BatteryStatus::Discharging, Some("9?"));
    assert_eq!(b.full_text, " 🔋9?% ");
    assert!(b.background.is_none());

    // a full battery shows neither emoji nor capacity
    let b = power_block(true, BatteryStatus::Full, Some("100"));
    assert_eq!(b.full_text, " 🔌 ");
}

#[test]
fn iw_report_with_network() {
    let out = "Interface wlan0\n\tifindex 3\n\tssid mynet\n\ttype managed\n";
    assert_eq!(parse_iw_output(out), WifiStatus::Up("mynet".to_string()));
}

#[test]
fn iw_report_keeps_spaces_inside_the_name() {
    let out = "\tssid my net \n";
    assert_eq!(parse_iw_output(out), WifiStatus::Up("my net".to_string()));
}

#[test]
fn iw_report_without_network() {
    assert_eq!(parse_iw_output(""), WifiStatus::Down);
    assert_eq!(parse_iw_output("Interface wlan0\n\ttype managed\n"), WifiStatus::Down);
    // a word merely starting with the key is not the key
    assert_eq!(parse_iw_output("\tssidx foo\n"), WifiStatus::Down);
    // a key with nothing after it names no network
    assert_eq!(parse_iw_output("\tssid \n"), WifiStatus::Down);
}

#[test]
fn iw_report_first_match_wins() {
    let out = "ssid first\nssid second\n";
    assert_eq!(parse_iw_output(out), WifiStatus::Up("first".to_string()));
}

#[test]
fn wifi_block_text() {
    assert_eq!(wifi_block(&WifiStatus::Error).full_text, " 📡‼️ ");
    assert_eq!(wifi_block(&WifiStatus::Down).full_text, " 📡🔻 ");
    let b = wifi_block(&WifiStatus::Up("mynet".to_string()));
    assert_eq!(b.full_text, " 📡mynet ");
    assert!(b.background.is_none());
}
