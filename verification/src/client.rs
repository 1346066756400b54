//! The client side of the protocol: each control operation as the request it
//! puts on the wire, and the reading of the daemon's reply.  The surrounding
//! application connects to the request's endpoint, writes its message, half
//! closes, and reads until the daemon closes.

use vstd::prelude::*;

use crate::text::{trim_of, trim_ws, str_eq};
use crate::protocol::result_view;

verus! {

/// The well-known local endpoint the daemon binds.
pub open spec fn default_socket_path_chars() -> Seq<char> {
    "/tmp/deadman-ipc.sock"@
}

/// The well-known local endpoint the daemon binds.
pub fn default_socket_path() -> (r: String)
    ensures
        r@ == default_socket_path_chars(),
{
    "/tmp/deadman-ipc.sock".to_owned()
}

/// One request, ready for the transport: where to connect and what to write.
pub struct IpcRequest {
    pub socket_path: String,
    pub message: String,
}

/// The message a tether request carries for two textual fields.
pub open spec fn tether_message_of(bus: Seq<char>, device_id: Seq<char>) -> Seq<char> {
    "tether "@ + bus + " "@ + device_id
}

/// The status query over the default endpoint.
pub fn get_status() -> (r: IpcRequest)
    ensures
        r.socket_path@ == default_socket_path_chars(),
        r.message@ == "status"@,
{
    IpcRequest { socket_path: default_socket_path(), message: "status".to_owned() }
}

/// The status query over a chosen endpoint.
pub fn get_status_with_path(socket_path: &str) -> (r: IpcRequest)
    ensures
        r.socket_path@ == socket_path@,
        r.message@ == "status"@,
{
    IpcRequest { socket_path: socket_path.to_owned(), message: "status".to_owned() }
}

fn tether_message(bus: &str, device_id: &str) -> (m: String)
    ensures
        m@ == tether_message_of(bus@, device_id@),
{
    let mut m = "tether ".to_owned();
    m.append(bus);
    m.append(" ");
    m.append(device_id);
    proof {
        assert(m@ =~= tether_message_of(bus@, device_id@));
    }
    m
}

/// The tether request for two textual fields, over the default endpoint.
pub fn tether(bus: &str, device_id: &str) -> (r: IpcRequest)
    ensures
        r.socket_path@ == default_socket_path_chars(),
        r.message@ == tether_message_of(bus@, device_id@),
{
    IpcRequest { socket_path: default_socket_path(), message: tether_message(bus, device_id) }
}

/// The tether request over a chosen endpoint.
pub fn tether_with_path(socket_path: &str, bus: &str, device_id: &str) -> (r: IpcRequest)
    ensures
        r.socket_path@ == socket_path@,
        r.message@ == tether_message_of(bus@, device_id@),
{
    IpcRequest { socket_path: socket_path.to_owned(), message: tether_message(bus, device_id) }
}

/// The severe request over the default endpoint.
pub fn severe() -> (r: IpcRequest)
    ensures
        r.socket_path@ == default_socket_path_chars(),
        r.message@ == "severe"@,
{
    IpcRequest { socket_path: default_socket_path(), message: "severe".to_owned() }
}

/// The severe request over a chosen endpoint.
pub fn severe_with_path(socket_path: &str) -> (r: IpcRequest)
    ensures
        r.socket_path@ == socket_path@,
        r.message@ == "severe"@,
{
    IpcRequest { socket_path: socket_path.to_owned(), message: "severe".to_owned() }
}

/// How a client reads a reply: trimmed, a body tagged with the error prefix
/// is the daemon's failure, anything else its success.
pub open spec fn parsed_response_of(s: Seq<char>) -> Result<Seq<char>, Seq<char>> {
    let t = trim_of(s);
    if t.len() >= 5 && t.take(5) == "ERR: "@ {
        Err(trim_of(t.skip(5)))
    } else {
        Ok(t)
    }
}

/// Reads one reply body.
pub fn parse_response(response: &str) -> (r: Result<String, String>)
    ensures
        result_view(r) == parsed_response_of(response@),
{
    let t = trim_ws(response);
    let n = t.as_str().unicode_len();
    if n >= 5 && str_eq(t.as_str().substring_char(0, 5), "ERR: ") {
        proof {
            assert(t@.subrange(0, 5) =~= t@.take(5));
        }
        let rest = t.as_str().substring_char(5, n);
        proof {
            assert(rest@ =~= t@.skip(5));
        }
        Err(trim_ws(rest))
    } else {
        proof {
            if t@.len() >= 5 {
                assert(t@.subrange(0, 5) =~= t@.take(5));
            }
        }
        Ok(t)
    }
}

} // verus!
