//! The connect protocol: idempotent connect check, discovery digestion,
//! retry ceiling, and the lock-skip policy.

use wiimote_manager::manager::ConnectionManager;
use wiimote_manager::manager::ManagerAction;
use wiimote_manager::manager::ManagerPhase;
use wiimote_manager::manager::MAX_RETRIES;
use wiimote_manager::wii_remote::WiiRemote;

/// A transcript in which no line names the peripheral.
const EMPTY_SCAN: &str = "Discovery started\n[CHG] Controller 00:11:22:33:44:55 Discovering: yes\n";

/// Drives one full failed attempt (empty devices listing, empty discovery)
/// and returns the actions it produced.
fn one_failed_attempt(
    manager: &mut ConnectionManager,
    session: &mut WiiRemote,
) -> Vec<ManagerAction> {
    let mut actions = Vec::new();
    actions.push(manager.begin_attempt());
    actions.push(manager.on_devices_output(session, ""));
    actions.push(manager.on_scan_output(session, EMPTY_SCAN));
    actions
}

#[test]
fn connect_check_already_connected_is_idempotent() {
    let mut manager = ConnectionManager::new();
    let mut session = WiiRemote::new();

    assert_eq!(manager.begin_attempt(), ManagerAction::QueryDevices);
    let devices = "Device AA:BB:CC:DD:EE:FF Nintendo RVL-CNT-01\n";
    let action = manager.on_devices_output(&mut session, devices);

    // Already paired: straight to path resolution; no scan, no connect.
    assert_eq!(action, ManagerAction::ListDevices);
    assert_eq!(session.bluetooth_address, "AA:BB:CC:DD:EE:FF");
    assert_eq!(manager.phase, ManagerPhase::AwaitingPath);
    assert_eq!(manager.retries, 0);
}

#[test]
fn is_connected_reports_and_records_only_on_match() {
    let mut session = WiiRemote::new();
    assert!(!session.is_connected("Device 00:11:22:33:44:55 Keyboard\n"));
    assert_eq!(session.bluetooth_address, "");

    assert!(session.is_connected("Device 00:11:22:33:44:55 Keyboard\nDevice AA:BB:CC:DD:EE:FF Nintendo RVL-CNT-01\n"));
    assert_eq!(session.bluetooth_address, "AA:BB:CC:DD:EE:FF");
}

#[test]
fn try_connect_empty_discovery_returns_false() {
    let mut session = WiiRemote::new();
    assert!(!session.try_connect(""));
    assert!(!session.try_connect(EMPTY_SCAN));
    assert_eq!(session.bluetooth_address, "");
}

#[test]
fn try_connect_clears_stale_address_on_empty_discovery() {
    let mut session = WiiRemote {
        bluetooth_address: String::from("AA:BB:CC:DD:EE:FF"),
    };
    assert!(!session.try_connect(EMPTY_SCAN));
    assert_eq!(session.bluetooth_address, "");
}

#[test]
fn try_connect_single_candidate_records_identity() {
    let mut session = WiiRemote::new();
    let scan = "Discovery started\nDevice XX:XX:XX:XX:XX:XX RVL-036\nDiscovery stopped\n";
    assert!(session.try_connect(scan));
    assert_eq!(session.bluetooth_address, "XX:XX:XX:XX:XX:XX");
}

#[test]
fn try_connect_first_match_wins() {
    let mut session = WiiRemote::new();
    let scan = "Device 11:11:11:11:11:11 RVL-036\nDevice 22:22:22:22:22:22 RVL-036\n";
    assert!(session.try_connect(scan));
    assert_eq!(session.bluetooth_address, "11:11:11:11:11:11");
}

#[test]
fn try_connect_marker_line_without_identity_field_is_skipped() {
    let mut session = WiiRemote::new();
    assert!(!session.try_connect("RVL-036\n"));
    assert_eq!(session.bluetooth_address, "");

    // A later well-formed line still counts.
    assert!(session.try_connect("RVL-036\nDevice 33:33:33:33:33:33 RVL-036\n"));
    assert_eq!(session.bluetooth_address, "33:33:33:33:33:33");
}

#[test]
fn scan_candidate_requests_connect_with_recorded_identity() {
    let mut manager = ConnectionManager::new();
    let mut session = WiiRemote::new();

    assert_eq!(manager.begin_attempt(), ManagerAction::QueryDevices);
    assert_eq!(
        manager.on_devices_output(&mut session, ""),
        ManagerAction::StartScan
    );
    let action = manager.on_scan_output(&mut session, "Device XX:XX:XX:XX:XX:XX RVL-036\n");
    assert_eq!(
        action,
        ManagerAction::Connect(String::from("XX:XX:XX:XX:XX:XX"))
    );
    assert_eq!(session.bluetooth_address, "XX:XX:XX:XX:XX:XX");
    assert_eq!(manager.phase, ManagerPhase::AwaitingConnect);

    // The connect command's own outcome is not inspected: completion moves
    // on to path resolution either way.
    assert_eq!(manager.on_connect_finished(), ManagerAction::ListDevices);
    assert_eq!(manager.phase, ManagerPhase::AwaitingPath);
}

#[test]
fn retry_ceiling_stops_after_ten_failures_and_reports_once() {
    let mut manager = ConnectionManager::new();
    let mut session = WiiRemote::new();
    let mut fatal_reports = 0;

    for attempt in 0..MAX_RETRIES {
        let actions = one_failed_attempt(&mut manager, &mut session);
        assert_eq!(
            actions,
            vec![
                ManagerAction::QueryDevices,
                ManagerAction::StartScan,
                ManagerAction::BackoffLong,
            ],
            "attempt {attempt} should still proceed",
        );
        assert_eq!(manager.retries, attempt + 1);
    }

    // The attempt after the tenth failure reports the fatal condition...
    let action = manager.begin_attempt();
    if action == ManagerAction::ReportFatal {
        fatal_reports += 1;
    }
    assert_eq!(fatal_reports, 1);
    assert_eq!(manager.phase, ManagerPhase::Stopped);

    // ...and never again: a stopped manager requests nothing more.
    for _ in 0..3 {
        assert_eq!(manager.begin_attempt(), ManagerAction::Skip);
        assert_eq!(manager.on_devices_output(&mut session, ""), ManagerAction::Skip);
        assert_eq!(manager.on_scan_output(&mut session, ""), ManagerAction::Skip);
        assert_eq!(manager.on_lock_busy(), ManagerAction::Skip);
    }
    assert_eq!(fatal_reports, 1);
}

#[test]
fn success_resets_the_retry_counter() {
    let mut manager = ConnectionManager::new();
    let mut session = WiiRemote::new();

    for _ in 0..3 {
        one_failed_attempt(&mut manager, &mut session);
    }
    assert_eq!(manager.retries, 3);

    assert_eq!(manager.begin_attempt(), ManagerAction::QueryDevices);
    assert_eq!(
        manager.on_devices_output(&mut session, ""),
        ManagerAction::StartScan
    );
    manager.on_scan_output(&mut session, "Device XX:XX:XX:XX:XX:XX RVL-036\n");
    assert_eq!(manager.retries, 0);
}

#[test]
fn lock_contention_is_skipped_not_blocked() {
    let mut manager = ConnectionManager::new();
    let mut session = WiiRemote::new();
    assert_eq!(manager.begin_attempt(), ManagerAction::QueryDevices);

    // However long the session stays busy, each busy report just asks for a
    // short backoff and leaves the manager where it was.
    for _ in 0..1000 {
        assert_eq!(manager.on_lock_busy(), ManagerAction::BackoffShort);
        assert_eq!(manager.phase, ManagerPhase::AwaitingDevices);
        assert_eq!(manager.retries, 0);
    }

    // Once access is available the attempt proceeds as if never delayed.
    let devices = "Device AA:BB:CC:DD:EE:FF Nintendo RVL-CNT-01\n";
    assert_eq!(
        manager.on_devices_output(&mut session, devices),
        ManagerAction::ListDevices
    );
}
