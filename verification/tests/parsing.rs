//! The text primitives on their own: substring search, line and field
//! splitting, colon-delimited suffixes, and the end-to-end scenario.

use wiimote_manager::manager::ConnectionManager;
use wiimote_manager::manager::ManagerAction;
use wiimote_manager::text::after_char_trimmed;
use wiimote_manager::text::contains_str;
use wiimote_manager::text::split_fields;
use wiimote_manager::text::split_lines;
use wiimote_manager::text::str_eq;
use wiimote_manager::wii_remote::WiiRemote;

#[test]
fn contains_str_finds_substrings() {
    assert!(contains_str("Device AA RVL-036", "RVL"));
    assert!(contains_str("RVL", "RVL"));
    assert!(contains_str("xxRVL", "RVL"));
    assert!(!contains_str("Device AA", "RVL"));
    assert!(!contains_str("RV", "RVL"));
    assert!(!contains_str("", "RVL"));
    assert!(contains_str("anything", ""));
    assert!(!contains_str("rvl", "RVL"));
}

#[test]
fn split_lines_handles_newline_styles() {
    let lines = split_lines("a\nb\r\nc");
    assert_eq!(lines, vec!["a", "b", "c"]);

    // A trailing newline produces no extra line; inner empty lines stay.
    assert_eq!(split_lines("a\n"), vec!["a"]);
    assert_eq!(split_lines("a\n\nb"), vec!["a", "", "b"]);
    assert_eq!(split_lines(""), Vec::<String>::new());
    assert_eq!(split_lines("\n"), vec![""]);
}

#[test]
fn split_fields_separates_on_whitespace_runs() {
    assert_eq!(split_fields("Device AA:BB RVL-036"), vec!["Device", "AA:BB", "RVL-036"]);
    assert_eq!(split_fields("  a \t b  "), vec!["a", "b"]);
    assert_eq!(split_fields(""), Vec::<String>::new());
    assert_eq!(split_fields("   "), Vec::<String>::new());
}

#[test]
fn after_char_trimmed_takes_the_suffix_after_the_first_colon() {
    assert_eq!(
        after_char_trimmed("Found device #1: /sys/a:b", ':'),
        Some(String::from("/sys/a:b"))
    );
    assert_eq!(after_char_trimmed("no colon here", ':'), None);
    assert_eq!(after_char_trimmed("tail:", ':'), Some(String::from("")));
    assert_eq!(after_char_trimmed("x:   ", ':'), Some(String::from("")));
}

#[test]
fn str_eq_is_exact() {
    assert!(str_eq("", ""));
    assert!(str_eq("/sys/a", "/sys/a"));
    assert!(!str_eq("/sys/a", "/sys/b"));
    assert!(!str_eq("/sys/a", "/sys/a "));
}

#[test]
fn end_to_end_scenario() {
    let mut manager = ConnectionManager::new();
    let mut session = WiiRemote::new();

    // Not yet paired; discovery names one candidate.
    assert_eq!(manager.begin_attempt(), ManagerAction::QueryDevices);
    assert_eq!(manager.on_devices_output(&mut session, ""), ManagerAction::StartScan);
    let connect = manager.on_scan_output(&mut session, "Device XX:XX:XX:XX:XX:XX RVL-036");
    assert_eq!(session.bluetooth_address, "XX:XX:XX:XX:XX:XX");
    assert_eq!(
        connect,
        ManagerAction::Connect(String::from("XX:XX:XX:XX:XX:XX"))
    );

    // The connect command ran; the device listing resolves the path.
    assert_eq!(manager.on_connect_finished(), ManagerAction::ListDevices);
    let listing = "Found device #1: /sys/devices/virtual/misc/uhid/0005:057E:0306.0006";
    assert_eq!(
        session.get_udev_device_path(listing),
        Some(String::from("/sys/devices/virtual/misc/uhid/0005:057E:0306.0006"))
    );
    assert_eq!(
        manager.on_listing_output(&session, listing),
        ManagerAction::DispatchEvents
    );

    // Events from that path now count as activity.
    assert_eq!(
        manager.on_event_path(Some("/sys/devices/virtual/misc/uhid/0005:057E:0306.0006")),
        ManagerAction::RecordActivity
    );
}
