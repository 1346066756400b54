use deadman::client::{get_status, get_status_with_path, tether, tether_with_path, severe, severe_with_path, parse_response, default_socket_path};
use deadman::protocol::render_response;

#[test]
fn status_request_message() {
    let r = get_status();
    assert_eq!(r.socket_path, "/tmp/deadman-ipc.sock");
    assert_eq!(r.message, "status");
}

#[test]
fn status_request_with_path() {
    let r = get_status_with_path("/tmp/elsewhere.sock");
    assert_eq!(r.socket_path, "/tmp/elsewhere.sock");
    assert_eq!(r.message, "status");
}

#[test]
fn tether_request_message() {
    let r = tether("bus1", "dev42");
    assert_eq!(r.socket_path, default_socket_path());
    assert_eq!(r.message, "tether bus1 dev42");
}

#[test]
fn tether_request_with_path() {
    let r = tether_with_path("/tmp/elsewhere.sock", "1", "2");
    assert_eq!(r.socket_path, "/tmp/elsewhere.sock");
    assert_eq!(r.message, "tether 1 2");
}

#[test]
fn severe_request_message() {
    assert_eq!(severe().message, "severe");
    let r = severe_with_path("/tmp/elsewhere.sock");
    assert_eq!(r.socket_path, "/tmp/elsewhere.sock");
    assert_eq!(r.message, "severe");
}

#[test]
fn response_success_is_trimmed_body() {
    assert_eq!(parse_response(" OK \n").unwrap(), "OK");
    assert_eq!(parse_response("no active tethers").unwrap(), "no active tethers");
}

#[test]
fn response_error_is_unwrapped() {
    assert_eq!(parse_response("ERR: unknown command: foo").unwrap_err(), "unknown command: foo");
    assert_eq!(parse_response("  ERR:  boom \n").unwrap_err(), "boom");
}

#[test]
fn response_round_trip() {
    let wire = render_response(Err("empty command".to_string()));
    assert_eq!(parse_response(&wire).unwrap_err(), "empty command");
    let wire = render_response(Ok("cleared 2 tether(s)".to_string()));
    assert_eq!(parse_response(&wire).unwrap(), "cleared 2 tether(s)");
}
