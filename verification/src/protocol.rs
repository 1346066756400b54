//! The command protocol: parsing a text command into a typed operation,
//! dispatching it against the registry, and framing responses.  Also the
//! transport's two decisions: the peer-credential trust check and the
//! privilege check at startup.
//!
//! Wire grammar, over whitespace-delimited words:
//! `status` | `tether BUS ADDRESS` | `severe`.
//! A success reply is free text; a failure reply is `ERR: ` and a message.
//! Unrecognized or malformed text never mutates the registry.

use vstd::prelude::*;

use crate::text::{tokens_of, split_tokens, str_eq};
use crate::num::{u8_field_val, parse_u8, dec3_of};
use crate::device::{DeviceKey, DeviceInfo, DeviceInfoV, DeviceMonitor, monitor_of, format_device_summary, summary_of};
use crate::registry::{DaemonState, EntryV, tracks, keep_live, status_chars, severe_msg_of};
use crate::usb::{usb_has_hotplug, lookup_device, not_found_msg};

verus! {

/// A parsed command.
#[derive(Debug)]
pub enum Command {
    Status,
    Tether { bus: String, address: String },
    Severe,
}

/// Mathematical view of a parsed command; the tether fields are still the
/// textual words, validated only when the tether runs.
pub ghost enum CommandV {
    Status,
    Tether { bus: Seq<char>, address: Seq<char> },
    Severe,
}

impl View for Command {
    type V = CommandV;

    open spec fn view(&self) -> CommandV {
        match self {
            Command::Status => CommandV::Status,
            Command::Tether { bus, address } => CommandV::Tether {
                bus: bus@,
                address: address@,
            },
            Command::Severe => CommandV::Severe,
        }
    }
}

pub open spec fn unexpected_arg_msg(t: Seq<char>) -> Seq<char> {
    "unexpected argument: "@ + t
}

pub open spec fn unknown_cmd_msg(t: Seq<char>) -> Seq<char> {
    "unknown command: "@ + t
}

pub open spec fn invalid_bus_msg(t: Seq<char>) -> Seq<char> {
    "invalid bus number: "@ + t
}

pub open spec fn invalid_device_msg(t: Seq<char>) -> Seq<char> {
    "invalid device id: "@ + t
}

pub open spec fn already_tethered_msg(key: DeviceKey) -> Seq<char> {
    "device "@ + dec3_of(key.bus) + ":"@ + dec3_of(key.address) + " is already tethered"@
}

pub open spec fn hotplug_unsupported_msg() -> Seq<char> {
    "libusb hotplug support is not available on this system"@
}

/// What a command's text parses to: a command, or the exact error reported.
pub open spec fn spec_parse(s: Seq<char>) -> Result<CommandV, Seq<char>> {
    let ts = tokens_of(s);
    if ts.len() == 0 {
        Err("empty command"@)
    } else if ts[0] == "status"@ {
        if ts.len() > 1 {
            Err(unexpected_arg_msg(ts[1]))
        } else {
            Ok(CommandV::Status)
        }
    } else if ts[0] == "tether"@ {
        if ts.len() < 2 {
            Err("missing bus number"@)
        } else if ts.len() < 3 {
            Err("missing device id"@)
        } else if ts.len() > 3 {
            Err(unexpected_arg_msg(ts[3]))
        } else {
            Ok(CommandV::Tether { bus: ts[1], address: ts[2] })
        }
    } else if ts[0] == "severe"@ {
        if ts.len() > 1 {
            Err(unexpected_arg_msg(ts[1]))
        } else {
            Ok(CommandV::Severe)
        }
    } else {
        Err(unknown_cmd_msg(ts[0]))
    }
}

/// View of a parse result.
pub open spec fn cmd_view(r: Result<Command, String>) -> Result<CommandV, Seq<char>> {
    match r {
        Ok(c) => Ok(c@),
        Err(e) => Err(e@),
    }
}

/// Parses one trimmed command text.  Extra or missing words are rejected,
/// naming the field, before any registry access.
pub fn parse_command(text: &str) -> (r: Result<Command, String>)
    ensures
        cmd_view(r) == spec_parse(text@),
{
    let toks = split_tokens(text);
    proof {
        assert(toks.deep_view() == tokens_of(text@));
    }
    if toks.len() == 0 {
        return Err("empty command".to_owned());
    }
    proof {
        assert(toks@[0]@ == tokens_of(text@)[0]);
    }
    if str_eq(toks[0].as_str(), "status") {
        if toks.len() > 1 {
            proof {
                assert(toks@[1]@ == tokens_of(text@)[1]);
            }
            let mut m = "unexpected argument: ".to_owned();
            m.append(toks[1].as_str());
            return Err(m);
        }
        Ok(Command::Status)
    } else if str_eq(toks[0].as_str(), "tether") {
        if toks.len() < 2 {
            return Err("missing bus number".to_owned());
        }
        if toks.len() < 3 {
            return Err("missing device id".to_owned());
        }
        if toks.len() > 3 {
            proof {
                assert(toks@[3]@ == tokens_of(text@)[3]);
            }
            let mut m = "unexpected argument: ".to_owned();
            m.append(toks[3].as_str());
            return Err(m);
        }
        proof {
            assert(toks@[1]@ == tokens_of(text@)[1]);
            assert(toks@[2]@ == tokens_of(text@)[2]);
        }
        let bus = toks[1].clone();
        let address = toks[2].clone();
        Ok(Command::Tether { bus, address })
    } else if str_eq(toks[0].as_str(), "severe") {
        if toks.len() > 1 {
            proof {
                assert(toks@[1]@ == tokens_of(text@)[1]);
            }
            let mut m = "unexpected argument: ".to_owned();
            m.append(toks[1].as_str());
            return Err(m);
        }
        Ok(Command::Severe)
    } else {
        let mut m = "unknown command: ".to_owned();
        m.append(toks[0].as_str());
        Err(m)
    }
}

/// The directive a successful tether hands back: spawn one watcher owning
/// this key and the device's identity.
pub struct WatchOrder {
    pub key: DeviceKey,
    pub info: DeviceInfo,
}

/// Mathematical view of a watch order.
pub ghost struct WatchOrderV {
    pub key: DeviceKey,
    pub info: DeviceInfoV,
}

impl View for WatchOrder {
    type V = WatchOrderV;

    open spec fn view(&self) -> WatchOrderV {
        WatchOrderV { key: self.key, info: self.info@ }
    }
}

/// The confirmation a successful tether reports.
pub open spec fn tether_ok_msg(w: WatchOrderV) -> Seq<char> {
    "tether active for "@ + summary_of(w.key, w.info.vendor_id, w.info.product_id, w.info.product_name)
}

/// View of a response.
pub open spec fn result_view(r: Result<String, String>) -> Result<Seq<char>, Seq<char>> {
    match r {
        Ok(m) => Ok(m@),
        Err(e) => Err(e@),
    }
}

/// View of an optional watch order.
pub open spec fn order_view(o: Option<WatchOrder>) -> Option<WatchOrderV> {
    match o {
        Some(w) => Some(w@),
        None => None,
    }
}

/// Everything a tether request guarantees, whatever the hardware answered.
///
/// On success: the two fields parsed, the key was absent, exactly the new
/// entry was appended with removed clear and lock-on-remove set, and the
/// reply is the confirmation for the spawned watcher's order.  On failure the
/// registry is unchanged, no watcher is ordered, and the message is one of
/// the protocol's tether errors.
pub open spec fn tether_outcome(
    pre: Seq<EntryV>,
    post: Seq<EntryV>,
    bus_tok: Seq<char>,
    addr_tok: Seq<char>,
    r: Result<Seq<char>, Seq<char>>,
    order: Option<WatchOrderV>,
) -> bool {
    match r {
        Ok(m) => {
            &&& order matches Some(w)
            &&& u8_field_val(bus_tok) == Some(w.key.bus)
            &&& u8_field_val(addr_tok) == Some(w.key.address)
            &&& !tracks(pre, w.key)
            &&& post == pre.push((w.key, monitor_of(w.info)))
            &&& m == tether_ok_msg(w)
        },
        Err(m) => {
            &&& order is None
            &&& post == pre
            &&& (m == hotplug_unsupported_msg() || (u8_field_val(bus_tok) is None && m
                == invalid_bus_msg(bus_tok)) || (u8_field_val(bus_tok) is Some && u8_field_val(
                addr_tok,
            ) is None && m == invalid_device_msg(addr_tok)) || (match (
                u8_field_val(bus_tok),
                u8_field_val(addr_tok),
            ) {
                (Some(b), Some(a)) => (tracks(pre, DeviceKey { bus: b, address: a }) && m
                    == already_tethered_msg(DeviceKey { bus: b, address: a })) || m
                    == not_found_msg(b, a) || (exists|t: Seq<char>|
                    m == "failed to create USB context: "@ + t || m
                        == "failed to list USB devices: "@ + t || m
                        == "failed to read device descriptor: "@ + t),
                _ => false,
            }))
        },
    }
}

/// The atomic critical section of a tether: under the registry's lock,
/// re-check that the key is absent and insert the monitor record in the same
/// step, closing the race between the early check and the insert.  Exactly
/// one of two tether requests for one key can pass this point.
pub fn tether_commit(state: &mut DaemonState, key: DeviceKey, info: DeviceInfo) -> (r: Result<
    String,
    String,
>)
    requires
        old(state).wf(),
    ensures
        final(state).wf(),
        tracks(old(state)@, key) ==> ({
            &&& final(state)@ == old(state)@
            &&& r matches Err(m) && m@ == already_tethered_msg(key)
        }),
        !tracks(old(state)@, key) ==> ({
            &&& final(state)@ == old(state)@.push((key, monitor_of(info@)))
            &&& r matches Ok(m) && m@ == tether_ok_msg(WatchOrderV { key, info: info@ })
        }),
{
    let name_ref: Option<&str> = match &info.product_name {
        Some(n) => Some(n.as_str()),
        None => None,
    };
    let summary = format_device_summary(key, info.vendor_id, info.product_id, name_ref);
    let monitor = DeviceMonitor::from_info(&info);
    if state.try_insert(key, monitor) {
        let mut m = "tether active for ".to_owned();
        m.append(summary.as_str());
        Ok(m)
    } else {
        let mut m = "device ".to_owned();
        crate::num::append_dec3(&mut m, key.bus);
        m.append(":");
        crate::num::append_dec3(&mut m, key.address);
        m.append(" is already tethered");
        proof {
            assert(m@ =~= already_tethered_msg(key));
        }
        Err(m)
    }
}

/// The early, cheap half of a tether: check the hotplug capability, validate
/// the two textual fields, and reject a key that is already tracked — all
/// before any hardware enumeration.  Success names the key to look up; it
/// does not reserve it, so the commit re-checks under the same critical
/// section discipline.
pub fn tether_precheck(state: &DaemonState, bus_tok: &str, addr_tok: &str) -> (r: Result<
    DeviceKey,
    String,
>)
    ensures
        r matches Ok(key) ==> ({
            &&& u8_field_val(bus_tok@) == Some(key.bus)
            &&& u8_field_val(addr_tok@) == Some(key.address)
            &&& !tracks(state@, key)
        }),
        r matches Err(m) ==> (m@ == hotplug_unsupported_msg() || (u8_field_val(bus_tok@) is None
            && m@ == invalid_bus_msg(bus_tok@)) || (u8_field_val(bus_tok@) is Some && u8_field_val(
            addr_tok@,
        ) is None && m@ == invalid_device_msg(addr_tok@)) || (match (
            u8_field_val(bus_tok@),
            u8_field_val(addr_tok@),
        ) {
            (Some(b), Some(a)) => tracks(state@, DeviceKey { bus: b, address: a }) && m@
                == already_tethered_msg(DeviceKey { bus: b, address: a }),
            _ => false,
        })),
{
    if !usb_has_hotplug() {
        return Err("libusb hotplug support is not available on this system".to_owned());
    }
    let bus = match parse_u8(bus_tok) {
        Some(b) => b,
        None => {
            let mut m = "invalid bus number: ".to_owned();
            m.append(bus_tok);
            return Err(m);
        },
    };
    let address = match parse_u8(addr_tok) {
        Some(a) => a,
        None => {
            let mut m = "invalid device id: ".to_owned();
            m.append(addr_tok);
            return Err(m);
        },
    };
    let key = DeviceKey::new(bus, address);
    if state.contains_key(key) {
        let mut m = "device ".to_owned();
        crate::num::append_dec3(&mut m, key.bus);
        m.append(":");
        crate::num::append_dec3(&mut m, key.address);
        m.append(" is already tethered");
        proof {
            assert(m@ =~= already_tethered_msg(key));
        }
        return Err(m);
    }
    Ok(key)
}

/// The tether operation on its two textual fields: check the hotplug
/// capability, validate the fields, reject a tracked key early, re-enumerate
/// the hardware, then commit atomically.  Any failure leaves the registry
/// unchanged; success also orders one watcher.
pub fn handle_tether(state: &mut DaemonState, bus_tok: &str, addr_tok: &str) -> (r: (
    Result<String, String>,
    Option<WatchOrder>,
))
    requires
        old(state).wf(),
    ensures
        final(state).wf(),
        tether_outcome(
            old(state)@,
            final(state)@,
            bus_tok@,
            addr_tok@,
            result_view(r.0),
            order_view(r.1),
        ),
{
    let key = match tether_precheck(state, bus_tok, addr_tok) {
        Ok(k) => k,
        Err(m) => {
            return (Err(m), None);
        },
    };
    let bus = key.bus;
    let address = key.address;
    let info = match lookup_device(bus, address) {
        Ok(i) => i,
        Err(e) => {
            proof {
                let k = DeviceKey { bus, address };
                assert(u8_field_val(bus_tok@) == Some(k.bus) && u8_field_val(addr_tok@) == Some(
                    k.address,
                ) && (e@ == not_found_msg(k.bus, k.address) || (exists|t: Seq<char>|
                    e@ == "failed to create USB context: "@ + t || e@
                        == "failed to list USB devices: "@ + t || e@
                        == "failed to read device descriptor: "@ + t)));
            }
            return (Err(e), None);
        },
    };
    let order = WatchOrder { key, info: info.duplicate() };
    match tether_commit(state, key, info) {
        Ok(m) => (Ok(m), Some(order)),
        Err(e) => (Err(e), None),
    }
}

/// Dispatches one trimmed command text against the registry: parse, route,
/// and reply.  Only a tether ever orders a watcher; every error leaves the
/// registry unchanged.
pub fn handle_command(state: &mut DaemonState, text: &str) -> (r: (
    Result<String, String>,
    Option<WatchOrder>,
))
    requires
        old(state).wf(),
    ensures
        final(state).wf(),
        spec_parse(text@) matches Err(m) ==> ({
            &&& final(state)@ == old(state)@
            &&& r.1 is None
            &&& r.0 matches Err(e) && e@ == m
        }),
        spec_parse(text@) == Ok::<CommandV, Seq<char>>(CommandV::Status) ==> ({
            &&& final(state)@ == keep_live(old(state)@)
            &&& r.1 is None
            &&& r.0 matches Ok(m) && m@ == status_chars(final(state)@)
        }),
        spec_parse(text@) == Ok::<CommandV, Seq<char>>(CommandV::Severe) ==> ({
            &&& final(state)@ == Seq::<EntryV>::empty()
            &&& r.1 is None
            &&& r.0 matches Ok(m) && m@ == (if old(state)@.len() == 0 {
                "no active tethers"@
            } else {
                severe_msg_of(old(state)@.len() as int)
            })
        }),
        spec_parse(text@) matches Ok(CommandV::Tether { bus, address }) ==> tether_outcome(
            old(state)@,
            final(state)@,
            bus,
            address,
            result_view(r.0),
            order_view(r.1),
        ),
{
    match parse_command(text) {
        Err(m) => (Err(m), None),
        Ok(Command::Status) => (state.handle_status(), None),
        Ok(Command::Severe) => (state.handle_severe(), None),
        Ok(Command::Tether { bus, address }) => handle_tether(
            state,
            bus.as_str(),
            address.as_str(),
        ),
    }
}

/// A reply as it goes onto the wire: a success body as it is, a failure
/// tagged with the fixed error prefix.
pub open spec fn response_chars(r: Result<Seq<char>, Seq<char>>) -> Seq<char> {
    match r {
        Ok(b) => b,
        Err(e) => "ERR: "@ + e,
    }
}

/// Frames one reply for the wire.
pub fn render_response(r: Result<String, String>) -> (out: String)
    ensures
        out@ == response_chars(result_view(r)),
{
    match r {
        Ok(b) => b,
        Err(e) => {
            let mut out = "ERR: ".to_owned();
            out.append(e.as_str());
            out
        },
    }
}

/// The transport's trust boundary: a connecting peer is served exactly when
/// its OS-level effective identity equals the daemon's own.
pub fn peer_allowed(peer_uid: u32, own_uid: u32) -> (r: bool)
    ensures
        r == (peer_uid == own_uid),
{
    peer_uid == own_uid
}

/// The startup privilege check: the daemon may run exactly when its effective
/// identity is the superuser's.
pub fn check_privileges(effective_uid: u32) -> (ok: bool)
    ensures
        ok == (effective_uid == 0),
{
    effective_uid == 0
}

} // verus!
