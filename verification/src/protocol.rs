//! The child's line-delimited stdout protocol.
//!
//! Each line is dispatched on a fixed prefix and its JSON payload decoded
//! into a typed event; malformed or unknown lines are silently discarded.
//! Status and ready events additionally update the shared status record,
//! field by field, leaving absent sub-fields unchanged.

use vstd::prelude::*;
use crate::config::{BridgeStatus, MessageStats};
use crate::jsonval::{json_as_bool, json_as_string, json_as_u64, json_get, json_ok, json_parse};

verus! {

/// A partial status report: only the sub-fields present in the payload.
#[derive(Debug, Clone, Copy, PartialEq, Eq)]
pub struct StatusUpdate {
    pub is_running: Option<bool>,
    pub slack_connected: Option<bool>,
    pub lark_connected: Option<bool>,
    pub slack_to_lark: Option<u32>,
    pub lark_to_slack: Option<u32>,
}

/// A log record forwarded from the child.
#[derive(Debug, Clone, PartialEq, Eq)]
pub struct LogEntry {
    pub level: String,
    pub message: String,
    pub timestamp: String,
}

/// One decoded line of the child's stdout protocol.
#[derive(Debug, Clone, PartialEq, Eq)]
pub enum DecodedEvent {
    /// A `STATUS:` line; carries the sub-fields that were present.
    Status(StatusUpdate),
    /// A `LOG:` line with level, message and timestamp.
    Log(LogEntry),
    /// An `ERROR:` line; carries the raw JSON payload.
    Error(String),
    /// A `READY:` line; carries the advertised port when one was present.
    Ready(Option<u16>),
}

/// Whether `p` is a prefix of `s`.
pub open spec fn has_prefix(s: Seq<char>, p: Seq<char>) -> bool {
    p.len() <= s.len() && s.subrange(0, p.len() as int) == p
}

/// What is left of `s` after its first `p.len()` characters.
pub open spec fn payload_spec(s: Seq<char>, p: Seq<char>) -> Seq<char> {
    s.subrange(p.len() as int, s.len() as int)
}

/// The protocol kind of a line, decided by the first matching prefix.
#[derive(Debug, Clone, Copy, PartialEq, Eq, Structural)]
pub enum LineKind {
    Status,
    Log,
    Error,
    Ready,
    Unknown,
}

/// Classifies a line exactly as the dispatcher does: first matching
/// prefix wins; anything else is unknown and ignored.
pub open spec fn line_kind(l: Seq<char>) -> LineKind {
    if has_prefix(l, "STATUS:"@) {
        LineKind::Status
    } else if has_prefix(l, "LOG:"@) {
        LineKind::Log
    } else if has_prefix(l, "ERROR:"@) {
        LineKind::Error
    } else if has_prefix(l, "READY:"@) {
        LineKind::Ready
    } else {
        LineKind::Unknown
    }
}

/// Whether `s` starts with `p`.
fn prefix_matches(s: &str, p: &str) -> (b: bool)
    ensures
        b == has_prefix(s@, p@),
{
    let slen = s.unicode_len();
    let plen = p.unicode_len();
    if plen > slen {
        return false;
    }
    let mut i: usize = 0;
    while i < plen
        invariant
            i <= plen,
            plen == p@.len(),
            slen == s@.len(),
            plen <= slen,
            forall|j: int| 0 <= j < i ==> s@[j] == p@[j],
        decreases plen - i,
    {
        if s.get_char(i) != p.get_char(i) {
            proof {
                assert(s@.subrange(0, plen as int)[i as int] == s@[i as int]);
            }
            return false;
        }
        i = i + 1;
    }
    proof {
        assert(s@.subrange(0, plen as int) =~= p@);
    }
    true
}

/// The status record after a partial update: every sub-field present in
/// `u` overwrites its counterpart; absent sub-fields are left unchanged;
/// the advertised port is never touched by a status line.
pub open spec fn apply_update_spec(st: BridgeStatus, u: StatusUpdate) -> BridgeStatus {
    BridgeStatus {
        is_running: match u.is_running {
            Some(b) => b,
            None => st.is_running,
        },
        slack_connected: match u.slack_connected {
            Some(b) => b,
            None => st.slack_connected,
        },
        lark_connected: match u.lark_connected {
            Some(b) => b,
            None => st.lark_connected,
        },
        message_stats: MessageStats {
            slack_to_lark: match u.slack_to_lark {
                Some(x) => x,
                None => st.message_stats.slack_to_lark,
            },
            lark_to_slack: match u.lark_to_slack {
                Some(x) => x,
                None => st.message_stats.lark_to_slack,
            },
        },
        server_port: st.server_port,
    }
}

/// Applies a partial status update in place.
pub fn apply_update(status: &mut BridgeStatus, u: StatusUpdate)
    ensures
        *final(status) == apply_update_spec(*old(status), u),
{
    if let Some(b) = u.is_running {
        status.is_running = b;
    }
    if let Some(b) = u.slack_connected {
        status.slack_connected = b;
    }
    if let Some(b) = u.lark_connected {
        status.lark_connected = b;
    }
    if let Some(x) = u.slack_to_lark {
        status.message_stats.slack_to_lark = x;
    }
    if let Some(x) = u.lark_to_slack {
        status.message_stats.lark_to_slack = x;
    }
}

fn get_bool(v: &serde_json::Value, key: &str) -> Option<bool> {
    match json_get(v, key) {
        Some(x) => json_as_bool(x),
        None => None,
    }
}

fn get_u64(v: &serde_json::Value, key: &str) -> Option<u64> {
    match json_get(v, key) {
        Some(x) => json_as_u64(x),
        None => None,
    }
}

fn get_string(v: &serde_json::Value, key: &str) -> Option<String> {
    match json_get(v, key) {
        Some(x) => json_as_string(x),
        None => None,
    }
}

/// Reads the optional sub-fields of a `STATUS:` payload's `data` object.
/// Counters wider than `u32` keep their low 32 bits.
fn extract_update(data: &serde_json::Value) -> StatusUpdate {
    let (s2l, l2s) = match json_get(data, "messageStats") {
        Some(stats) => (
            match get_u64(stats, "slackToLark") {
                Some(x) => Some(#[verifier::truncate] (x as u32)),
                None => None,
            },
            match get_u64(stats, "larkToSlack") {
                Some(x) => Some(#[verifier::truncate] (x as u32)),
                None => None,
            },
        ),
        None => (None, None),
    };
    StatusUpdate {
        is_running: get_bool(data, "isRunning"),
        slack_connected: get_bool(data, "slackConnected"),
        lark_connected: get_bool(data, "larkConnected"),
        slack_to_lark: s2l,
        lark_to_slack: l2s,
    }
}

/// Decodes a `STATUS:` payload and applies its partial update. Payloads
/// that are not JSON, or carry no `data` object, are discarded untouched.
fn handle_status(status: &mut BridgeStatus, body: &str) -> (ev: Option<DecodedEvent>)
    ensures
        !json_ok(body@) ==> ev is None,
        ev is None ==> *final(status) == *old(status),
        ev matches Some(e) ==> e matches DecodedEvent::Status(u) && *final(status)
            == apply_update_spec(*old(status), u) && json_ok(body@),
{
    match json_parse(body) {
        None => None,
        Some(v) => match json_get(&v, "data") {
            None => None,
            Some(data) => {
                let u = extract_update(data);
                apply_update(status, u);
                Some(DecodedEvent::Status(u))
            },
        },
    }
}

/// Decodes a `LOG:` payload; all three fields must be present strings.
fn handle_log(body: &str) -> (ev: Option<DecodedEvent>)
    ensures
        !json_ok(body@) ==> ev is None,
        ev matches Some(e) ==> e is Log && json_ok(body@),
{
    match json_parse(body) {
        None => None,
        Some(v) => {
            let level = get_string(&v, "level");
            let message = get_string(&v, "message");
            let timestamp = get_string(&v, "timestamp");
            match (level, message, timestamp) {
                (Some(level), Some(message), Some(timestamp)) => Some(
                    DecodedEvent::Log(LogEntry { level, message, timestamp }),
                ),
                _ => None,
            }
        },
    }
}

/// Decodes an `ERROR:` payload: any well-formed JSON is forwarded opaque.
fn handle_error(body: &str) -> (ev: Option<DecodedEvent>)
    ensures
        ev is Some <==> json_ok(body@),
        ev matches Some(e) ==> e matches DecodedEvent::Error(p) && p@ == body@,
{
    match json_parse(body) {
        None => None,
        Some(_) => Some(DecodedEvent::Error(body.to_owned())),
    }
}

/// Decodes a `READY:` payload and records the advertised port, if any.
/// Ports wider than `u16` keep their low 16 bits.
fn handle_ready(status: &mut BridgeStatus, body: &str) -> (ev: Option<DecodedEvent>)
    ensures
        ev is Some <==> json_ok(body@),
        ev is None ==> *final(status) == *old(status),
        ev matches Some(e) ==> e matches DecodedEvent::Ready(op) && (match op {
            Some(prt) => *final(status) == (BridgeStatus {
                server_port: Some(prt),
                ..*old(status)
            }),
            None => *final(status) == *old(status),
        }),
{
    match json_parse(body) {
        None => None,
        Some(v) => match get_u64(&v, "port") {
            Some(p64) => {
                let prt = #[verifier::truncate] (p64 as u16);
                status.server_port = Some(prt);
                Some(DecodedEvent::Ready(Some(prt)))
            },
            None => Some(DecodedEvent::Ready(None)),
        },
    }
}

/// Decodes one stdout line of the child and applies its effect on the
/// shared status record.
///
/// Unknown prefixes and malformed payloads are silently discarded and
/// leave the status untouched; every decoded event is handed back for
/// forwarding to subscribers, whether or not it changed the status.
pub fn handle_line(status: &mut BridgeStatus, line: &str) -> (ev: Option<DecodedEvent>)
    ensures
        ev is None ==> *final(status) == *old(status),
        line_kind(line@) is Unknown ==> ev is None,
        line_kind(line@) is Status && !json_ok(payload_spec(line@, "STATUS:"@)) ==> ev is None,
        line_kind(line@) is Log && !json_ok(payload_spec(line@, "LOG:"@)) ==> ev is None,
        line_kind(line@) is Error ==> (ev is Some <==> json_ok(payload_spec(line@, "ERROR:"@))),
        line_kind(line@) is Ready ==> (ev is Some <==> json_ok(payload_spec(line@, "READY:"@))),
        ev matches Some(DecodedEvent::Status(u)) ==> line_kind(line@) is Status && *final(status)
            == apply_update_spec(*old(status), u),
        ev matches Some(DecodedEvent::Log(_)) ==> line_kind(line@) is Log && *final(status) == *old(
            status,
        ),
        ev matches Some(DecodedEvent::Error(p)) ==> line_kind(line@) is Error && p@ == payload_spec(
            line@,
            "ERROR:"@,
        ) && *final(status) == *old(status),
        ev matches Some(DecodedEvent::Ready(op)) ==> line_kind(line@) is Ready && (match op {
            Some(prt) => *final(status) == (BridgeStatus {
                server_port: Some(prt),
                ..*old(status)
            }),
            None => *final(status) == *old(status),
        }),
{
    let n = line.unicode_len();
    if prefix_matches(line, "STATUS:") {
        let plen = "STATUS:".unicode_len();
        handle_status(status, line.substring_char(plen, n))
    } else if prefix_matches(line, "LOG:") {
        let plen = "LOG:".unicode_len();
        handle_log(line.substring_char(plen, n))
    } else if prefix_matches(line, "ERROR:") {
        let plen = "ERROR:".unicode_len();
        handle_error(line.substring_char(plen, n))
    } else if prefix_matches(line, "READY:") {
        let plen = "READY:".unicode_len();
        handle_ready(status, line.substring_char(plen, n))
    } else {
        None
    }
}

} // verus!
