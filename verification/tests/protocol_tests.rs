use deadman::protocol::{parse_command, handle_command, render_response, peer_allowed, check_privileges, Command};
use deadman::registry::DaemonState;

#[test]
fn parse_status() {
    let r = parse_command("status");
    assert!(matches!(r, Ok(Command::Status)));
}

#[test]
fn parse_severe() {
    let r = parse_command("severe");
    assert!(matches!(r, Ok(Command::Severe)));
}

#[test]
fn parse_tether_fields() {
    match parse_command("tether 1 42") {
        Ok(Command::Tether { bus, address }) => {
            assert_eq!(bus, "1");
            assert_eq!(address, "42");
        }
        _ => panic!("expected a tether command"),
    }
}

#[test]
fn parse_tolerates_extra_whitespace() {
    match parse_command("  tether   7\t9  ") {
        Ok(Command::Tether { bus, address }) => {
            assert_eq!(bus, "7");
            assert_eq!(address, "9");
        }
        _ => panic!("expected a tether command"),
    }
}

#[test]
fn parse_empty_command() {
    assert_eq!(parse_command("").unwrap_err(), "empty command");
    assert_eq!(parse_command("   ").unwrap_err(), "empty command");
}

#[test]
fn parse_unknown_command() {
    assert_eq!(parse_command("foo").unwrap_err(), "unknown command: foo");
}

#[test]
fn parse_status_extra_argument() {
    assert_eq!(parse_command("status now").unwrap_err(), "unexpected argument: now");
}

#[test]
fn parse_severe_extra_argument() {
    assert_eq!(parse_command("severe now").unwrap_err(), "unexpected argument: now");
}

#[test]
fn parse_tether_missing_fields() {
    assert_eq!(parse_command("tether").unwrap_err(), "missing bus number");
    assert_eq!(parse_command("tether 1").unwrap_err(), "missing device id");
    assert_eq!(parse_command("tether 1 2 3").unwrap_err(), "unexpected argument: 3");
}

#[test]
fn unknown_command_full_response() {
    let mut state = DaemonState::new();
    let (reply, order) = handle_command(&mut state, "foo");
    assert!(order.is_none());
    let body = render_response(reply);
    assert_eq!(body, "ERR: unknown command: foo");
}

#[test]
fn malformed_text_never_mutates_state() {
    let mut state = DaemonState::new();
    let _ = handle_command(&mut state, "foo");
    let _ = handle_command(&mut state, "tether 1");
    let _ = handle_command(&mut state, "status extra");
    assert_eq!(state.len(), 0);
    let (reply, _) = handle_command(&mut state, "status");
    assert_eq!(reply.unwrap(), "no active tethers");
}

#[test]
fn render_response_frames_errors_only() {
    assert_eq!(render_response(Ok("OK".to_string())), "OK");
    assert_eq!(render_response(Err("boom".to_string())), "ERR: boom");
}

#[test]
fn single_shot_authenticated_exchange() {
    // One connection of the single-shot server, with the transport's reads
    // and writes already performed: an authenticated peer's "status" request
    // against a handler answering "OK" yields exactly "OK".
    let own_uid = 1000u32;
    let handler = |msg: &str| -> Result<String, String> {
        if msg == "status" {
            Ok("OK".to_string())
        } else {
            Err("Unknown command".to_string())
        }
    };
    let serve = |peer_uid: u32, raw: &str| -> Option<String> {
        if !peer_allowed(peer_uid, own_uid) {
            return None;
        }
        Some(render_response(handler(raw.trim())))
    };
    assert_eq!(serve(1000, "status"), Some("OK".to_string()));
    assert_eq!(serve(1000, "other"), Some("ERR: Unknown command".to_string()));
}

#[test]
fn single_shot_rejects_foreign_peer() {
    // An unauthenticated peer gets the connection closed: zero bytes, no
    // response.
    let own_uid = 0u32;
    assert!(!peer_allowed(1000, own_uid));
    let served: Option<String> = if peer_allowed(1000, own_uid) {
        Some(render_response(Ok("OK".to_string())))
    } else {
        None
    };
    assert!(served.is_none());
}

#[test]
fn privileges_require_superuser() {
    assert!(check_privileges(0));
    assert!(!check_privileges(1000));
}

