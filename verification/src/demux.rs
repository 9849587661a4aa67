//! Stream demultiplexer: classifies each line of worker output by shape and
//! routes it to exactly one of four destinations — the matching pending
//! request, the streaming channel, the push channel, or the log sink.  Only a
//! response whose id matches a live pending entry is pulled into RPC
//! semantics; everything else is pushed downstream.

use vstd::prelude::*;
use vstd::string::*;
use crate::correlator::{PendingEntry, PendingTable};
use crate::json;

verus! {

/// An inbound line after classification by shape.
pub enum Inbound {
    /// Not JSON: verbatim text for the log sink.
    Unparsed { text: String },
    /// Carries an "event" key: one item of the output stream.
    Event { raw: serde_json::Value },
    /// Response-shaped: a string "id" and a string "status", with optional
    /// "data" and "error" fields (an explicit null counts as absent).
    Reply {
        id: String,
        status: String,
        data: Option<serde_json::Value>,
        error: Option<serde_json::Value>,
        raw: serde_json::Value,
    },
    /// JSON of any other shape: dropped with a diagnostic.
    Other { raw: serde_json::Value },
}

/// The string content of a field, when the field is present and is a string.
fn get_string_field(v: &serde_json::Value, key: &str) -> Option<String> {
    match json::value_get(v, key) {
        Some(f) => json::value_as_string(f),
        None => None,
    }
}

/// A copy of a field, when it is present and not JSON null.
fn get_present_field(v: &serde_json::Value, key: &str) -> Option<serde_json::Value> {
    match json::value_get(v, key) {
        Some(f) => if json::value_is_null(f) {
            None
        } else {
            Some(json::value_clone(f))
        },
        None => None,
    }
}

/// The core classification decision over what the field probes found: an
/// "event" key wins outright — even over an "id" that would match a pending
/// request; otherwise a string "id" together with a string "status" make a
/// response shape carrying exactly those fields; anything else is dropped
/// with a diagnostic.
pub fn classify(
    has_event: bool,
    id: Option<String>,
    status: Option<String>,
    data: Option<serde_json::Value>,
    error: Option<serde_json::Value>,
    raw: serde_json::Value,
) -> (r: Inbound)
    ensures
        has_event ==> r == (Inbound::Event { raw }),
        !has_event ==> (match (id, status) {
            (Some(i), Some(s)) => r == (Inbound::Reply { id: i, status: s, data, error, raw }),
            _ => r == (Inbound::Other { raw }),
        }),
{
    if has_event {
        Inbound::Event { raw }
    } else {
        match (id, status) {
            (Some(id), Some(status)) => Inbound::Reply { id, status, data, error, raw },
            _ => Inbound::Other { raw },
        }
    }
}

/// Classifies one line of worker output: non-JSON text is log material,
/// verbatim; a parsed value is classified by `classify` over its top-level
/// fields.  Reading those fields off the opaque JSON value is the only step
/// the contract cannot see; the decision itself is `classify`'s.
pub fn decode_line(line: &str) -> (r: Inbound)
    ensures
        (r is Unparsed) == !json::json_wellformed(line@),
        r matches Inbound::Unparsed { text } ==> text@ == line@,
{
    match json::parse_json(line) {
        None => Inbound::Unparsed { text: line.to_owned() },
        Some(v) => {
            let has_event = json::value_get(&v, "event").is_some();
            let id = get_string_field(&v, "id");
            let status = get_string_field(&v, "status");
            let data = get_present_field(&v, "data");
            let error = get_present_field(&v, "error");
            classify(has_event, id, status, data, error, v)
        },
    }
}

/// Where one inbound line went.
pub enum Routed {
    /// A response matched a pending request: the removed entry together with
    /// the response fields, to be delivered to that caller.
    Deliver {
        entry: PendingEntry,
        status: String,
        data: Option<serde_json::Value>,
        error: Option<serde_json::Value>,
    },
    /// A stream event, for the streaming channel.
    Stream { raw: serde_json::Value },
    /// An unsolicited message, for the push channel.
    Push { raw: serde_json::Value },
    /// Non-JSON text, for the log sink.
    Log { text: String },
    /// JSON of no known shape: dropped with a diagnostic.
    Drop { raw: serde_json::Value },
}

/// Routes one classified line.  A response resolves — and removes — exactly
/// the pending entry bearing its id; a response with no matching entry is
/// reclassified as a push notification; events, log text and diagnostics
/// leave the table untouched.
pub fn route(table: &mut PendingTable, msg: Inbound) -> (r: Routed)
    requires
        old(table).wf(),
    ensures
        final(table).wf(),
        msg matches Inbound::Unparsed { text } ==> r == (Routed::Log { text }) && final(table)@
            == old(table)@,
        msg matches Inbound::Event { raw } ==> r == (Routed::Stream { raw }) && final(table)@
            == old(table)@,
        msg matches Inbound::Other { raw } ==> r == (Routed::Drop { raw }) && final(table)@
            == old(table)@,
        msg matches Inbound::Reply { id, status, data, error, raw } ==> ({
            &&& old(table).spec_contains(id@) ==> (r matches Routed::Deliver {
                entry,
                status: s,
                data: d,
                error: e,
            } && entry.id@ == id@ && s == status && d == data && e == error && (exists|k: int|
                0 <= k < old(table)@.len() && old(table)@[k] == entry && final(table)@ == old(
                    table,
                )@.remove(k)) && !final(table).spec_contains(id@))
            &&& !old(table).spec_contains(id@) ==> r == (Routed::Push { raw }) && final(table)@
                == old(table)@
        }),
{
    match msg {
        Inbound::Unparsed { text } => Routed::Log { text },
        Inbound::Event { raw } => Routed::Stream { raw },
        Inbound::Other { raw } => Routed::Drop { raw },
        Inbound::Reply { id, status, data, error, raw } => {
            match table.remove(&id) {
                Some(entry) => Routed::Deliver { entry, status, data, error },
                None => Routed::Push { raw },
            }
        },
    }
}

/// Each response resolves at most one caller: in a well-formed table the
/// entry bearing a given id is unique.
pub proof fn lemma_unique_match(table: PendingTable, id: Seq<char>, i: int, j: int)
    requires
        table.wf(),
        0 <= i < table@.len(),
        0 <= j < table@.len(),
        table@[i].id@ == id,
        table@[j].id@ == id,
    ensures
        i == j,
{
}

} // verus!
