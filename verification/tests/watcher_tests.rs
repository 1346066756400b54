use deadman::device::{DeviceKey, MonitorFlags, SelectedDeviceWatcher, format_device_summary};
use deadman::locker::parse_session_ids;
use deadman::num::parse_u8;

fn sample_watcher(name: Option<&str>) -> SelectedDeviceWatcher {
    SelectedDeviceWatcher {
        key: DeviceKey::new(2, 5),
        vendor_id: 0x0403,
        product_id: 0x6001,
        product_name: name.map(|n| n.to_string()),
        flags: MonitorFlags::new(),
    }
}

#[test]
fn watcher_display_name() {
    assert_eq!(sample_watcher(Some("Blue Key")).display_name(), "Blue Key");
    assert_eq!(sample_watcher(None).display_name(), "selected device");
}

#[test]
fn departure_event_rechecks_address() {
    let mut w = sample_watcher(None);
    // Same vendor and product at another address: the callback must not act.
    w.device_left(2, 6);
    assert!(w.keeps_watching());
    w.device_left(2, 5);
    assert!(!w.keeps_watching());
    assert!(w.flags.should_lock_sessions());
}

#[test]
fn fast_reattach_clears_removal() {
    let mut w = sample_watcher(None);
    w.device_left(2, 5);
    assert!(!w.keeps_watching());
    w.device_arrived(2, 5);
    assert!(w.keeps_watching());
    // An arrival elsewhere changes nothing.
    w.device_left(2, 5);
    w.device_arrived(3, 5);
    assert!(!w.keeps_watching());
}

#[test]
fn session_list_parsing() {
    let output = "SESSION  UID USER   SEAT  TTY \n\
                  c2        42 alice  seat0 tty2\n\
                  c7       137 bob    seat0 tty3\n\
                  \n\
                  2 sessions listed.\n";
    let ids = parse_session_ids(output);
    assert_eq!(ids, vec!["c2".to_string(), "c7".to_string(), "2".to_string()]);
}

#[test]
fn session_lock_tolerates_single_failures() {
    // One locking attempt enumerates every session; a per-session failure is
    // skipped, never aborting the rest.
    let output = "SESSION\nc1\nc2\nc3\n";
    let ids = parse_session_ids(output);
    assert_eq!(ids.len(), 3);
    let mut attempted = Vec::new();
    let mut locked = 0;
    for id in &ids {
        attempted.push(id.clone());
        let lock_result: Result<(), ()> = if id == "c2" { Err(()) } else { Ok(()) };
        if lock_result.is_ok() {
            locked += 1;
        }
    }
    assert_eq!(attempted, ids);
    assert_eq!(locked, 2);
}

#[test]
fn session_list_failure_aborts_attempt() {
    // A failed enumeration yields no identifiers: nothing is locked at all.
    let ids = parse_session_ids("");
    assert!(ids.is_empty());
}

#[test]
fn summary_formatting() {
    let key = DeviceKey::new(1, 2);
    assert_eq!(
        format_device_summary(key, 0x1234, 0xabcd, Some("Token")),
        "bus 001 address 002 1234:abcd - Token"
    );
    assert_eq!(
        format_device_summary(DeviceKey::new(255, 0), 0, 0xffff, None),
        "bus 255 address 000 0000:ffff"
    );
}

#[test]
fn numeric_field_parsing() {
    assert_eq!(parse_u8("0"), Some(0));
    assert_eq!(parse_u8("255"), Some(255));
    assert_eq!(parse_u8("007"), Some(7));
    assert_eq!(parse_u8("+12"), Some(12));
    assert_eq!(parse_u8("256"), None);
    assert_eq!(parse_u8("999999999999999"), None);
    assert_eq!(parse_u8(""), None);
    assert_eq!(parse_u8("+"), None);
    assert_eq!(parse_u8("-1"), None);
    assert_eq!(parse_u8("1x"), None);
}
