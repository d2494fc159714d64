use wifi_scan::scanner::build_snapshot;
use wifi_scan::scanner::require_initialized;
use wifi_scan::scanner::scan_with;
use wifi_scan::scanner::RawRecord;
use wifi_scan::sim::SimPort;
use wifi_scan::wifi::Error;

fn record(ssid: &str, bssid: &str, level: i32, frequency: u32) -> RawRecord {
    RawRecord {
        ssid: Some(ssid.to_string()),
        bssid: Some(bssid.to_string()),
        level: Some(level),
        frequency: Some(frequency),
    }
}

fn working_port(records: Vec<RawRecord>) -> SimPort {
    SimPort {
        records,
        identifier_ok: true,
        service_ok: true,
        trigger_call_ok: true,
        trigger_accepted: true,
        read_ok: true,
    }
}

#[test]
fn field_pass_through_fidelity() {
    let mut port = working_port(vec![record("Home-5G", "AA:BB:CC:DD:EE:FF", -47, 2437)]);
    let snapshot = scan_with(&mut port).unwrap();
    assert_eq!(snapshot.len(), 1);
    assert_eq!(snapshot[0].ssid, "Home-5G");
    assert_eq!(snapshot[0].mac, "AA:BB:CC:DD:EE:FF");
    assert_eq!(snapshot[0].signal_level, -47);
    assert_eq!(snapshot[0].channel, 6);
    assert!(snapshot[0].security.is_empty());
}

#[test]
fn order_matches_native_enumeration() {
    let mut port = working_port(vec![
        record("first", "11:11:11:11:11:11", -40, 2412),
        record("second", "22:22:22:22:22:22", -50, 2484),
        record("third", "33:33:33:33:33:33", -60, 5180),
    ]);
    let snapshot = scan_with(&mut port).unwrap();
    assert_eq!(snapshot.len(), 3);
    assert_eq!(snapshot[0].ssid, "first");
    assert_eq!(snapshot[1].ssid, "second");
    assert_eq!(snapshot[2].ssid, "third");
    assert_eq!(snapshot[0].channel, 1);
    assert_eq!(snapshot[1].channel, 14);
    assert_eq!(snapshot[2].channel, 36);
}

#[test]
fn empty_collection_yields_empty_snapshot() {
    let mut port = working_port(Vec::new());
    let snapshot = scan_with(&mut port).unwrap();
    assert!(snapshot.is_empty());
}

#[test]
fn hidden_ssid_passes_through_as_empty_string() {
    let mut port = working_port(vec![record("", "AA:AA:AA:AA:AA:AA", -70, 2472)]);
    let snapshot = scan_with(&mut port).unwrap();
    assert_eq!(snapshot[0].ssid, "");
    assert_eq!(snapshot[0].channel, 13);
}

#[test]
fn any_failing_field_extraction_fails_the_whole_scan() {
    for missing in 0..4 {
        let mut middle = record("middle", "22:22:22:22:22:22", -50, 2437);
        match missing {
            0 => middle.ssid = None,
            1 => middle.bssid = None,
            2 => middle.level = None,
            _ => middle.frequency = None,
        }
        let mut port = working_port(vec![
            record("first", "11:11:11:11:11:11", -40, 2412),
            middle,
            record("third", "33:33:33:33:33:33", -60, 5180),
        ]);
        let result = scan_with(&mut port);
        assert!(matches!(result, Err(Error::JNIError(_))));
    }
}

#[test]
fn declined_trigger_is_not_fatal() {
    let mut port = working_port(vec![record("kept", "11:11:11:11:11:11", -40, 2412)]);
    port.trigger_accepted = false;
    let snapshot = scan_with(&mut port).unwrap();
    assert_eq!(snapshot.len(), 1);
    assert_eq!(snapshot[0].ssid, "kept");
}

#[test]
fn failing_trigger_call_is_fatal() {
    let mut port = working_port(vec![record("lost", "11:11:11:11:11:11", -40, 2412)]);
    port.trigger_call_ok = false;
    assert!(matches!(scan_with(&mut port), Err(Error::JNIError(_))));
}

#[test]
fn failing_identifier_lookup_is_fatal() {
    let mut port = working_port(Vec::new());
    port.identifier_ok = false;
    assert!(matches!(scan_with(&mut port), Err(Error::JNIError(_))));
}

#[test]
fn failing_service_request_is_fatal() {
    let mut port = working_port(Vec::new());
    port.service_ok = false;
    assert!(matches!(scan_with(&mut port), Err(Error::JNIError(_))));
}

#[test]
fn failing_result_read_is_fatal() {
    let mut port = working_port(Vec::new());
    port.read_ok = false;
    assert!(matches!(scan_with(&mut port), Err(Error::JNIError(_))));
}

#[test]
fn scan_before_initialization_reports_not_initialized() {
    let handle: Option<&SimPort> = None;
    assert!(matches!(require_initialized(handle), Err(Error::NotInitialized)));
}

#[test]
fn initialized_handle_is_resolved() {
    let value: i32 = 7;
    assert!(matches!(require_initialized(Some(&value)), Ok(&7)));
}

#[test]
fn build_snapshot_projects_records_in_order() {
    let records = vec![
        record("alpha", "11:11:11:11:11:11", -40, 2412),
        record("beta", "22:22:22:22:22:22", -50, 5955),
    ];
    let snapshot = build_snapshot(&records).unwrap();
    assert_eq!(snapshot.len(), 2);
    assert_eq!(snapshot[0].ssid, "alpha");
    assert_eq!(snapshot[0].channel, 1);
    assert_eq!(snapshot[1].ssid, "beta");
    assert_eq!(snapshot[1].channel, 1);
    assert_eq!(snapshot[1].mac, "22:22:22:22:22:22");
    assert!(snapshot[1].security.is_empty());
}

#[test]
fn build_snapshot_fails_on_any_missing_field() {
    for missing in 0..4 {
        let mut bad = record("bad", "22:22:22:22:22:22", -50, 2437);
        match missing {
            0 => bad.ssid = None,
            1 => bad.bssid = None,
            2 => bad.level = None,
            _ => bad.frequency = None,
        }
        let records = vec![record("good", "11:11:11:11:11:11", -40, 2412), bad];
        assert!(matches!(build_snapshot(&records), Err(Error::JNIError(_))));
    }
}

#[test]
fn build_snapshot_of_no_records_is_empty() {
    let snapshot = build_snapshot(&Vec::new()).unwrap();
    assert!(snapshot.is_empty());
}
