use deadman::device::{DeviceInfo, DeviceKey, MonitorFlags};
use deadman::protocol::tether_commit;
use deadman::registry::{DaemonState, WakeAction};

fn sample_info(name: Option<&str>) -> DeviceInfo {
    DeviceInfo {
        vendor_id: 0x1234,
        product_id: 0xabcd,
        product_name: name.map(|n| n.to_string()),
    }
}

#[test]
fn tether_inserts_one_entry() {
    let mut state = DaemonState::new();
    let key = DeviceKey::new(1, 2);
    assert!(!state.contains_key(key));
    let reply = tether_commit(&mut state, key, sample_info(Some("Token"))).unwrap();
    assert_eq!(reply, "tether active for bus 001 address 002 1234:abcd - Token");
    assert!(state.contains_key(key));
    assert_eq!(state.len(), 1);
}

#[test]
fn second_tether_for_same_key_fails() {
    let mut state = DaemonState::new();
    let key = DeviceKey::new(1, 2);
    assert!(tether_commit(&mut state, key, sample_info(None)).is_ok());
    let err = tether_commit(&mut state, key, sample_info(None)).unwrap_err();
    assert_eq!(err, "device 001:002 is already tethered");
    assert_eq!(state.len(), 1);
}

#[test]
fn status_reports_watching_tether() {
    let mut state = DaemonState::new();
    assert_eq!(state.handle_status().unwrap(), "no active tethers");
    let key = DeviceKey::new(3, 7);
    tether_commit(&mut state, key, sample_info(None)).unwrap();
    let body = state.handle_status().unwrap();
    assert_eq!(body, "bus 003 address 007 1234:abcd [watching]");
    assert!(body.contains("1234:abcd"));
    assert!(body.contains("watching"));
}

#[test]
fn status_lists_one_line_per_tether() {
    let mut state = DaemonState::new();
    tether_commit(&mut state, DeviceKey::new(1, 1), sample_info(Some("A"))).unwrap();
    tether_commit(&mut state, DeviceKey::new(1, 2), sample_info(Some("B"))).unwrap();
    let body = state.handle_status().unwrap();
    assert_eq!(
        body,
        "bus 001 address 001 1234:abcd - A [watching]\nbus 001 address 002 1234:abcd - B [watching]"
    );
}

#[test]
fn status_purges_removed_entries() {
    let mut state = DaemonState::new();
    tether_commit(&mut state, DeviceKey::new(1, 1), sample_info(None)).unwrap();
    tether_commit(&mut state, DeviceKey::new(1, 2), sample_info(None)).unwrap();
    state.handle_departure(1, 1);
    let body = state.handle_status().unwrap();
    assert_eq!(body, "bus 001 address 002 1234:abcd [watching]");
    assert_eq!(state.len(), 1);
}

#[test]
fn severe_counts_and_clears() {
    let mut state = DaemonState::new();
    tether_commit(&mut state, DeviceKey::new(1, 1), sample_info(None)).unwrap();
    tether_commit(&mut state, DeviceKey::new(2, 2), sample_info(None)).unwrap();
    tether_commit(&mut state, DeviceKey::new(3, 3), sample_info(None)).unwrap();
    let reply = state.handle_severe().unwrap();
    assert_eq!(reply, "cleared 3 tether(s)");
    // An immediate status, before any watcher reacts, shows nothing left.
    assert_eq!(state.handle_status().unwrap(), "no active tethers");
}

#[test]
fn severe_on_empty_registry() {
    let mut state = DaemonState::new();
    assert_eq!(state.handle_severe().unwrap(), "no active tethers");
}

#[test]
fn severe_never_locks() {
    // The severe path disarms before it marks removal, so the lock decision
    // is false on a severed monitor; and a watcher waking after the clear
    // finds its key gone and only self-removes.
    let mut flags = MonitorFlags::new();
    flags.sever();
    assert!(!flags.should_lock_sessions());

    let mut state = DaemonState::new();
    let key = DeviceKey::new(1, 2);
    tether_commit(&mut state, key, sample_info(None)).unwrap();
    state.handle_severe().unwrap();
    assert_eq!(state.watcher_wake(key), WakeAction::RemoveOnly);
}

#[test]
fn departure_arms_exactly_one_lock() {
    let mut state = DaemonState::new();
    let key = DeviceKey::new(9, 4);
    tether_commit(&mut state, key, sample_info(None)).unwrap();
    assert_eq!(state.watcher_wake(key), WakeAction::KeepWatching);
    state.handle_departure(9, 4);
    assert_eq!(state.watcher_wake(key), WakeAction::LockAndRemove);
    // The watcher locks once, then self-removes; a later wake for the same
    // key is a silent no-op.
    state.remove_monitor(key);
    assert_eq!(state.watcher_wake(key), WakeAction::RemoveOnly);
    state.remove_monitor(key);
    assert_eq!(state.len(), 0);
}

#[test]
fn departure_for_untracked_key_has_no_effect() {
    let mut state = DaemonState::new();
    tether_commit(&mut state, DeviceKey::new(1, 1), sample_info(Some("A"))).unwrap();
    let before = state.render_status();
    state.handle_departure(200, 200);
    assert_eq!(state.render_status(), before);
    assert_eq!(state.len(), 1);
    assert_eq!(state.watcher_wake(DeviceKey::new(1, 1)), WakeAction::KeepWatching);
}

#[test]
fn reattach_clears_removal() {
    let mut state = DaemonState::new();
    let key = DeviceKey::new(5, 6);
    tether_commit(&mut state, key, sample_info(None)).unwrap();
    state.handle_departure(5, 6);
    assert_eq!(state.watcher_wake(key), WakeAction::LockAndRemove);
    state.handle_arrival(5, 6);
    assert_eq!(state.watcher_wake(key), WakeAction::KeepWatching);
}

#[test]
fn severe_count_renders_multi_digit() {
    let mut state = DaemonState::new();
    for address in 1..=12u8 {
        tether_commit(&mut state, DeviceKey::new(1, address), sample_info(None)).unwrap();
    }
    assert_eq!(state.handle_severe().unwrap(), "cleared 12 tether(s)");
}

#[test]
fn status_tag_reflects_flags_before_purge() {
    let mut state = DaemonState::new();
    tether_commit(&mut state, DeviceKey::new(4, 4), sample_info(None)).unwrap();
    state.handle_departure(4, 4);
    // Rendering without the purge shows the disconnected tag.
    assert_eq!(state.render_status(), "bus 004 address 004 1234:abcd [disconnected]");
}
