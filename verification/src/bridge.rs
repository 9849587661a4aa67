//! Bridge façade: the state behind `send` and `shutdown`.  A `send` opens a
//! pending entry under a fresh id, hands the framed line to the dispatcher,
//! and is later resolved by exactly one of a matching response, its deadline,
//! or worker closure.  The asynchronous runtime around this (channels, the
//! subprocess, the actual waiting) lives outside the crate; every decision it
//! takes goes through the functions here.

use vstd::prelude::*;
use vstd::string::*;
use crate::codec;
use crate::correlator::{PendingEntry, PendingTable};
use crate::demux;
use crate::json;

verus! {

/// Per-request timeout window, in seconds.
pub const REQUEST_TIMEOUT_SECS: u64 = 30;

/// The same window in milliseconds, for deadline arithmetic.
pub const REQUEST_TIMEOUT_MS: i64 = 30000;

/// How a `send` fails, when it fails.
#[derive(Debug)]
pub enum BridgeError {
    /// The worker process could not be launched; fatal at construction.
    Startup { detail: String },
    /// The outbound write failed; reported to this caller only.
    WriteFailed { detail: String },
    /// No matching response arrived within the deadline.
    Timeout { cmd: String },
    /// The worker's stream closed, or shutdown was already requested.
    WorkerClosed,
    /// The worker answered with a non-ok status; its error value, rendered.
    Worker { detail: String },
    /// A fresh id collided with one still in flight: an internal invariant
    /// violation.
    DuplicateId,
}

impl BridgeError {
    /// The caller-facing description of the failure.
    pub fn message(&self) -> (r: String)
        ensures
            self matches BridgeError::Startup { detail } ==> r@ == "Failed to start worker: "@
                + detail@,
            self matches BridgeError::WriteFailed { detail } ==> r@
                == "Failed to write to worker: "@ + detail@,
            self matches BridgeError::Timeout { cmd } ==> r@
                == "Request timeout: worker did not respond to '"@ + cmd@
                + "' within 30 seconds"@,
            self is WorkerClosed ==> r@ == "Worker channel closed"@,
            self matches BridgeError::Worker { detail } ==> r@ == detail@,
            self is DuplicateId ==> r@ == "Duplicate request id"@,
    {
        match self {
            BridgeError::Startup { detail } => {
                let mut s = "Failed to start worker: ".to_owned();
                s.append(detail.as_str());
                s
            },
            BridgeError::WriteFailed { detail } => {
                let mut s = "Failed to write to worker: ".to_owned();
                s.append(detail.as_str());
                s
            },
            BridgeError::Timeout { cmd } => {
                let mut s = "Request timeout: worker did not respond to '".to_owned();
                s.append(cmd.as_str());
                s.append("' within 30 seconds");
                s
            },
            BridgeError::WorkerClosed => "Worker channel closed".to_owned(),
            BridgeError::Worker { detail } => detail.clone(),
            BridgeError::DuplicateId => "Duplicate request id".to_owned(),
        }
    }
}

/// The diagnostic emitted towards an observing UI when a request times out.
pub struct TimeoutNotice {
    pub cmd: String,
    pub timeout_seconds: u64,
    pub timestamp: String,
    pub request_id: String,
}

/// Relies on uuid::Uuid::new_v4 and its hyphenated Display form: a fresh
/// random identifier, used for correlation ids and confirmation tokens.
/// The value is random, so nothing is promised of it; the correlator checks
/// for collisions itself.
#[verifier::external_body]
pub(crate) fn fresh_uuid() -> (r: String) {
    uuid::Uuid::new_v4().to_string()
}

/// Relies on chrono::Utc::now and DateTime::timestamp_millis: the current
/// instant as milliseconds since the Unix epoch.  The value depends on the
/// clock, so nothing is promised of it.
#[verifier::external_body]
pub fn now_millis() -> (r: i64) {
    chrono::Utc::now().timestamp_millis()
}

/// Relies on chrono::Utc::now and DateTime::to_rfc3339: the current instant
/// rendered for the timeout diagnostic.  The value depends on the clock, so
/// nothing is promised of it.
#[verifier::external_body]
pub fn now_rfc3339() -> (r: String) {
    chrono::Utc::now().to_rfc3339()
}

/// The bridge's caller-shared state: the pending table plus the two
/// lifecycle flags.
pub struct BridgeCore {
    table: PendingTable,
    worker_closed: bool,
    shutdown_requested: bool,
}

impl BridgeCore {
    /// The pending entries, in registration order.
    pub closed spec fn pending(self) -> Seq<PendingEntry> {
        self.table@
    }

    /// Whether the worker's output stream has ended.
    pub closed spec fn is_closed(self) -> bool {
        self.worker_closed
    }

    /// Whether shutdown has been requested at least once.
    pub closed spec fn shutdown_was_requested(self) -> bool {
        self.shutdown_requested
    }

    /// Whether an id is in flight.
    pub open spec fn spec_contains(self, id: Seq<char>) -> bool {
        exists|k: int| 0 <= k < self.pending().len() && self.pending()[k].id@ == id
    }

    /// At most one pending entry per id.
    pub closed spec fn wf(self) -> bool {
        self.table.wf()
    }

    pub fn new() -> (r: Self)
        ensures
            r.wf(),
            r.pending().len() == 0,
            !r.is_closed(),
            !r.shutdown_was_requested(),
    {
        BridgeCore { table: PendingTable::new(), worker_closed: false, shutdown_requested: false }
    }

    pub fn pending_len(&self) -> (r: usize)
        ensures
            r == self.pending().len(),
    {
        self.table.len()
    }

    pub fn is_pending(&self, id: &String) -> (r: bool)
        ensures
            r == self.spec_contains(id@),
    {
        let r = self.table.contains(id);
        proof {
            if self.table.spec_contains(id@) {
                let k = choose|k: int|
                    0 <= k < self.table@.len() && self.table@[k].id@ == id@;
                assert(self.pending()[k].id@ == id@);
            }
            if self.spec_contains(id@) {
                let k = choose|k: int|
                    0 <= k < self.pending().len() && self.pending()[k].id@ == id@;
                assert(self.table@[k].id@ == id@);
            }
        }
        r
    }

    /// Registers the pending entry for one `send` under a caller-supplied
    /// id.  Fails fast with `WorkerClosed` once the worker is gone or
    /// shutdown has been requested, and with `DuplicateId` when the id is
    /// still in flight.
    pub fn begin_send(&mut self, id: String, cmd: String, now_ms: i64) -> (r: Result<
        (),
        BridgeError,
    >)
        requires
            old(self).wf(),
            now_ms + REQUEST_TIMEOUT_MS <= i64::MAX,
        ensures
            final(self).wf(),
            final(self).is_closed() == old(self).is_closed(),
            final(self).shutdown_was_requested() == old(self).shutdown_was_requested(),
            old(self).is_closed() || old(self).shutdown_was_requested() ==> (
            r matches Err(e) && e is WorkerClosed) && final(self).pending() == old(self).pending(),
            !old(self).is_closed() && !old(self).shutdown_was_requested() && old(self).spec_contains(id@) ==> (r matches Err(e) && e is DuplicateId) && final(self).pending() == old(self).pending(),
            !old(self).is_closed() && !old(self).shutdown_was_requested() && !old(self).spec_contains(id@) ==> r is Ok && final(self).pending() == old(self).pending().push(
                (PendingEntry { id, cmd, deadline_ms: (now_ms + REQUEST_TIMEOUT_MS) as i64 }),
            ),
    {
        if self.worker_closed || self.shutdown_requested {
            return Err(BridgeError::WorkerClosed);
        }
        let deadline_ms = now_ms + REQUEST_TIMEOUT_MS;
        match self.table.register(id, cmd, deadline_ms) {
            Ok(()) => Ok(()),
            Err(()) => Err(BridgeError::DuplicateId),
        }
    }

    /// Generates a fresh id and registers the pending entry for one `send`.
    /// The id comes from a random source, so a collision cannot be ruled out
    /// here; `begin_send` states what happens for every id.
    pub fn open_request(&mut self, cmd: String, now_ms: i64) -> (r: Result<String, BridgeError>)
        requires
            old(self).wf(),
            now_ms + REQUEST_TIMEOUT_MS <= i64::MAX,
        ensures
            final(self).wf(),
            final(self).is_closed() == old(self).is_closed(),
            final(self).shutdown_was_requested() == old(self).shutdown_was_requested(),
            old(self).is_closed() || old(self).shutdown_was_requested() ==> (
            r matches Err(e) && e is WorkerClosed) && final(self).pending() == old(self).pending(),
            r matches Ok(id) ==> final(self).pending() == old(self).pending().push(
                (PendingEntry { id, cmd, deadline_ms: (now_ms + REQUEST_TIMEOUT_MS) as i64 }),
            ) && final(self).spec_contains(id@),
            r is Err ==> final(self).pending() == old(self).pending(),
            !old(self).is_closed() && !old(self).shutdown_was_requested() && old(self).pending().len() == 0 ==> r is Ok,
    {
        let id = fresh_uuid();
        let id_copy = id.clone();
        match self.begin_send(id, cmd, now_ms) {
            Ok(()) => {
                proof {
                    let n = old(self).pending().len() as int;
                    assert(final(self).pending()[n].id@ == id_copy@);
                }
                Ok(id_copy)
            },
            Err(e) => Err(e),
        }
    }

    /// Generates a fresh id and registers the pending entry for one `send`
    /// at the current instant, clamping the deadline to the representable
    /// range; `begin_send` states what happens for every id and instant.
    pub fn open_request_now(&mut self, cmd: String) -> (r: Result<String, BridgeError>)
        requires
            old(self).wf(),
        ensures
            final(self).wf(),
            final(self).is_closed() == old(self).is_closed(),
            final(self).shutdown_was_requested() == old(self).shutdown_was_requested(),
            old(self).is_closed() || old(self).shutdown_was_requested() ==> (
            r matches Err(e) && e is WorkerClosed) && final(self).pending() == old(self).pending(),
            r matches Ok(id) ==> final(self).pending().len() == old(self).pending().len() + 1
                && final(self).pending().drop_last() == old(self).pending() && final(self).pending().last().id@ == id@ && final(self).pending().last().cmd@ == cmd@ && final(self).spec_contains(id@),
            r is Err ==> final(self).pending() == old(self).pending(),
            !old(self).is_closed() && !old(self).shutdown_was_requested() && old(self).pending().len() == 0 ==> r is Ok,
    {
        let now = now_millis();
        let now = if now > i64::MAX - REQUEST_TIMEOUT_MS {
            i64::MAX - REQUEST_TIMEOUT_MS
        } else {
            now
        };
        let r = self.open_request(cmd, now);
        proof {
            if r is Ok {
                assert(final(self).pending().drop_last() =~= old(self).pending());
            }
        }
        r
    }

    /// Routes one classified line of worker output; see `demux::route`.
    pub fn on_line(&mut self, msg: demux::Inbound) -> (r: demux::Routed)
        requires
            old(self).wf(),
        ensures
            final(self).wf(),
            final(self).is_closed() == old(self).is_closed(),
            final(self).shutdown_was_requested() == old(self).shutdown_was_requested(),
            msg matches demux::Inbound::Unparsed { text } ==> r == (demux::Routed::Log { text })
                && final(self).pending() == old(self).pending(),
            msg matches demux::Inbound::Event { raw } ==> r == (demux::Routed::Stream { raw })
                && final(self).pending() == old(self).pending(),
            msg matches demux::Inbound::Other { raw } ==> r == (demux::Routed::Drop { raw })
                && final(self).pending() == old(self).pending(),
            msg matches demux::Inbound::Reply { id, status, data, error, raw } ==> ({
                &&& old(self).spec_contains(id@) ==> (r matches demux::Routed::Deliver {
                    entry,
                    status: s,
                    data: d,
                    error: e,
                } && entry.id@ == id@ && s == status && d == data && e == error && (exists|k: int|
                    0 <= k < old(self).pending().len() && old(self).pending()[k] == entry && final(self).pending() == old(self).pending().remove(k))) && !final(self).spec_contains(
                    id@,
                )
                &&& !old(self).spec_contains(id@) ==> r == (demux::Routed::Push { raw }) && final(self).pending() == old(self).pending()
            }),
    {
        demux::route(&mut self.table, msg)
    }

    /// Expires one pending request at its deadline: removes the entry and
    /// builds the timeout diagnostic from it.  Returns `None` when the id is
    /// no longer pending (a response won the race).
    pub fn on_timeout(&mut self, id: &String, timestamp: String) -> (r: Option<TimeoutNotice>)
        requires
            old(self).wf(),
        ensures
            final(self).wf(),
            final(self).is_closed() == old(self).is_closed(),
            final(self).shutdown_was_requested() == old(self).shutdown_was_requested(),
            !final(self).spec_contains(id@),
            old(self).spec_contains(id@) ==> (r matches Some(n) && n.request_id@ == id@
                && n.timeout_seconds == REQUEST_TIMEOUT_SECS && n.timestamp@ == timestamp@ && (
            exists|k: int|
                0 <= k < old(self).pending().len() && old(self).pending()[k].id@ == id@ && n.cmd@
                    == old(self).pending()[k].cmd@ && final(self).pending() == old(self).pending().remove(k))),
            !old(self).spec_contains(id@) ==> r is None && final(self).pending() == old(self).pending(),
    {
        match self.table.remove(id) {
            Some(entry) => Some(
                TimeoutNotice {
                    cmd: entry.cmd,
                    timeout_seconds: REQUEST_TIMEOUT_SECS,
                    timestamp,
                    request_id: entry.id,
                },
            ),
            None => None,
        }
    }

    /// Expires one pending request at its deadline, stamping the
    /// diagnostic with the current clock; `on_timeout` states the
    /// bookkeeping for every timestamp.
    pub fn expire_request_now(&mut self, id: &String) -> (r: Option<TimeoutNotice>)
        requires
            old(self).wf(),
        ensures
            final(self).wf(),
            final(self).is_closed() == old(self).is_closed(),
            final(self).shutdown_was_requested() == old(self).shutdown_was_requested(),
            !final(self).spec_contains(id@),
            old(self).spec_contains(id@) ==> (r matches Some(n) && n.request_id@ == id@
                && n.timeout_seconds == REQUEST_TIMEOUT_SECS && (exists|k: int|
                0 <= k < old(self).pending().len() && old(self).pending()[k].id@ == id@ && n.cmd@
                    == old(self).pending()[k].cmd@ && final(self).pending() == old(self).pending().remove(k))),
            !old(self).spec_contains(id@) ==> r is None && final(self).pending() == old(self).pending(),
    {
        let timestamp = now_rfc3339();
        self.on_timeout(id, timestamp)
    }

    /// A queued request line could not be written to the worker: the
    /// issuing caller, identified by the line's id, is failed with
    /// `WriteFailed` instead of being left to time out, and its entry is
    /// reclaimed.  The failure is local to that caller; the bridge goes on.
    pub fn on_write_failed(&mut self, id: &String, detail: String) -> (r: Option<BridgeError>)
        requires
            old(self).wf(),
        ensures
            final(self).wf(),
            final(self).is_closed() == old(self).is_closed(),
            final(self).shutdown_was_requested() == old(self).shutdown_was_requested(),
            !final(self).spec_contains(id@),
            old(self).spec_contains(id@) ==> (r matches Some(e) && e matches
                BridgeError::WriteFailed { detail: d } && d@ == detail@ && (exists|k: int|
                0 <= k < old(self).pending().len() && old(self).pending()[k].id@ == id@ && final(self).pending() == old(self).pending().remove(k))),
            !old(self).spec_contains(id@) ==> r is None && final(self).pending() == old(self).pending(),
    {
        match self.table.remove(id) {
            Some(e) => {
                proof {
                    let k = choose|k: int|
                        0 <= k < old(self).table@.len() && old(self).table@[k] == e
                            && self.table@ == old(self).table@.remove(k);
                    assert(old(self).pending()[k].id@ == id@);
                }
                Some(BridgeError::WriteFailed { detail })
            },
            None => {
                proof {
                    if old(self).spec_contains(id@) {
                        let k = choose|k: int|
                            0 <= k < old(self).pending().len() && old(self).pending()[k].id@
                                == id@;
                        assert(old(self).table@[k].id@ == id@);
                    }
                }
                None
            },
        }
    }

    /// Withdraws a pending request that can no longer proceed (for example,
    /// shutdown won the race before its line was queued), so that no entry
    /// ever leaks without a terminal resolution.
    pub fn cancel_request(&mut self, id: &String) -> (r: bool)
        requires
            old(self).wf(),
        ensures
            final(self).wf(),
            final(self).is_closed() == old(self).is_closed(),
            final(self).shutdown_was_requested() == old(self).shutdown_was_requested(),
            !final(self).spec_contains(id@),
            r == old(self).spec_contains(id@),
            r ==> (exists|k: int|
                0 <= k < old(self).pending().len() && old(self).pending()[k].id@ == id@ && final(self).pending() == old(self).pending().remove(k)),
            !r ==> final(self).pending() == old(self).pending(),
    {
        match self.table.remove(id) {
            Some(e) => {
                proof {
                    let k = choose|k: int|
                        0 <= k < old(self).table@.len() && old(self).table@[k] == e
                            && self.table@ == old(self).table@.remove(k);
                    assert(old(self).pending()[k].id@ == id@);
                }
                true
            },
            None => {
                proof {
                    if old(self).spec_contains(id@) {
                        let k = choose|k: int|
                            0 <= k < old(self).pending().len() && old(self).pending()[k].id@
                                == id@;
                        assert(old(self).table@[k].id@ == id@);
                    }
                }
                false
            },
        }
    }

    /// The worker's output stream ended: marks the bridge closed and hands
    /// back every pending entry, in order, so that each waiting caller can be
    /// failed with `WorkerClosed`.  No entry stays pending.
    pub fn on_worker_closed(&mut self) -> (r: Vec<PendingEntry>)
        requires
            old(self).wf(),
        ensures
            final(self).wf(),
            final(self).is_closed(),
            final(self).shutdown_was_requested() == old(self).shutdown_was_requested(),
            r@ == old(self).pending(),
            final(self).pending().len() == 0,
    {
        self.worker_closed = true;
        self.table.drain()
    }

    /// Requests shutdown; returns whether this call was the first, i.e.
    /// whether the shutdown signal must actually be sent.  Calling it again
    /// changes nothing and errors nobody.
    pub fn request_shutdown(&mut self) -> (r: bool)
        requires
            old(self).wf(),
        ensures
            final(self).wf(),
            r == !old(self).shutdown_was_requested(),
            final(self).shutdown_was_requested(),
            final(self).is_closed() == old(self).is_closed(),
            final(self).pending() == old(self).pending(),
    {
        let first = !self.shutdown_requested;
        self.shutdown_requested = true;
        first
    }
}

/// Builds the framed wire line for one request, rendering the payload
/// through the JSON serializer.  The result is always a single line: it
/// contains no raw newline.
pub fn encode_command(id: &String, cmd: &String, payload: &serde_json::Value) -> (r: String)
    ensures
        codec::line_safe(r@),
        exists|p: Seq<char>|
            r@ == codec::framed(id@, cmd@, p) && codec::line_safe(p),
{
    let rendered = json::render_value(payload);
    let r = codec::encode_request(id.as_str(), cmd.as_str(), rendered.as_str());
    proof {
        assert(r@ == codec::framed(id@, cmd@, rendered@) && codec::line_safe(rendered@));
    }
    r
}

/// Interprets a delivered response for its caller: an "ok" status yields the
/// data value (JSON null when the worker sent none), and any other status
/// yields the worker's error — rendered when present, a fixed description
/// when absent.
pub fn interpret_reply(
    status: &String,
    data: Option<serde_json::Value>,
    error: Option<serde_json::Value>,
) -> (r: Result<serde_json::Value, BridgeError>)
    ensures
        status@ == "ok"@ ==> r is Ok,
        status@ == "ok"@ && data is Some ==> r == Ok::<serde_json::Value, BridgeError>(
            data->Some_0,
        ),
        status@ != "ok"@ ==> (r matches Err(e) && e is Worker),
        status@ != "ok"@ && error is None ==> (r matches Err(e) && e matches BridgeError::Worker {
            detail,
        } && detail@ == "Unknown worker error"@),
{
    let ok = "ok".to_owned();
    if *status == ok {
        match data {
            Some(v) => Ok(v),
            None => Ok(json::value_null()),
        }
    } else {
        match error {
            Some(v) => Err(BridgeError::Worker { detail: json::render_value(&v) }),
            None => Err(BridgeError::Worker { detail: "Unknown worker error".to_owned() }),
        }
    }
}

/// Whether a pending entry's deadline has elapsed at a given instant.
pub fn deadline_elapsed(entry: &PendingEntry, now_ms: i64) -> (r: bool)
    ensures
        r == (now_ms > entry.deadline_ms),
{
    now_ms > entry.deadline_ms
}

} // verus!
