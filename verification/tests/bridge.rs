use horizon_core::bridge::{deadline_elapsed, encode_command, interpret_reply, BridgeCore, BridgeError, REQUEST_TIMEOUT_MS};
use horizon_core::correlator::PendingEntry;
use horizon_core::demux::{classify, decode_line, route, Inbound, Routed};
use horizon_core::correlator::PendingTable;
use serde_json::Value;

fn json(text: &str) -> Value {
    serde_json::from_str::<Value>(text).unwrap()
}

#[test]
fn ping_round_trip() {
    let mut core = BridgeCore::new();
    core.begin_send("id-1".to_string(), "ping".to_string(), 1000).unwrap();
    assert_eq!(core.pending_len(), 1);

    let msg = decode_line("{\"id\":\"id-1\",\"status\":\"ok\",\"data\":\"pong\"}");
    match core.on_line(msg) {
        Routed::Deliver { entry, status, data, error } => {
            assert_eq!(entry.id, "id-1");
            assert_eq!(entry.cmd, "ping");
            let out = interpret_reply(&status, data, error).unwrap();
            assert_eq!(out, Value::String("pong".to_string()));
        }
        _ => panic!("response did not reach its caller"),
    }
    assert_eq!(core.pending_len(), 0);
}

#[test]
fn response_resolves_matching_caller_only() {
    let mut core = BridgeCore::new();
    core.begin_send("id-a".to_string(), "one".to_string(), 0).unwrap();
    core.begin_send("id-b".to_string(), "two".to_string(), 0).unwrap();
    core.begin_send("id-c".to_string(), "three".to_string(), 0).unwrap();

    let msg = decode_line("{\"id\":\"id-b\",\"status\":\"ok\",\"data\":1}");
    match core.on_line(msg) {
        Routed::Deliver { entry, .. } => assert_eq!(entry.id, "id-b"),
        _ => panic!("matching response must deliver"),
    }
    assert_eq!(core.pending_len(), 2);
    assert!(core.is_pending(&"id-a".to_string()));
    assert!(core.is_pending(&"id-c".to_string()));

    // the same id a second time no longer matches: delivered exactly once
    let again = decode_line("{\"id\":\"id-b\",\"status\":\"ok\",\"data\":2}");
    assert!(matches!(core.on_line(again), Routed::Push { .. }));
    assert_eq!(core.pending_len(), 2);
}

#[test]
fn timeout_resolves_and_leaves_no_entry() {
    let mut core = BridgeCore::new();
    let n = 5;
    for i in 0..n {
        core.begin_send(format!("id-{}", i), "analyze".to_string(), 0).unwrap();
    }
    assert_eq!(core.pending_len(), n);
    for i in 0..n {
        let notice = core.on_timeout(&format!("id-{}", i), "ts".to_string()).unwrap();
        assert_eq!(notice.cmd, "analyze");
        assert_eq!(notice.timeout_seconds, 30);
        assert_eq!(notice.request_id, format!("id-{}", i));
        assert_eq!(notice.timestamp, "ts");
    }
    assert_eq!(core.pending_len(), 0);
    assert!(core.on_timeout(&"id-0".to_string(), "ts".to_string()).is_none());
}

#[test]
fn deadline_is_thirty_seconds() {
    let entry = PendingEntry {
        id: "x".to_string(),
        cmd: "c".to_string(),
        deadline_ms: 1000 + REQUEST_TIMEOUT_MS,
    };
    assert!(!deadline_elapsed(&entry, 1000 + REQUEST_TIMEOUT_MS));
    assert!(deadline_elapsed(&entry, 1001 + REQUEST_TIMEOUT_MS));
}

#[test]
fn unmatched_id_becomes_push_notification() {
    let mut table = PendingTable::new();
    table.register("known".to_string(), "cmd".to_string(), 0).unwrap();
    let msg = decode_line("{\"id\":\"stranger\",\"status\":\"ok\",\"data\":42}");
    match route(&mut table, msg) {
        Routed::Push { raw } => {
            assert_eq!(raw, json("{\"id\":\"stranger\",\"status\":\"ok\",\"data\":42}"));
        }
        _ => panic!("an unmatched id must go to the push channel"),
    }
    assert_eq!(table.len(), 1);
}

#[test]
fn event_wins_even_with_colliding_id() {
    let mut core = BridgeCore::new();
    core.begin_send("abc".to_string(), "cmd".to_string(), 0).unwrap();
    let msg = decode_line("{\"event\":\"token\",\"id\":\"abc\",\"status\":\"ok\"}");
    assert!(matches!(core.on_line(msg), Routed::Stream { .. }));
    // the colliding pending request is untouched
    assert_eq!(core.pending_len(), 1);
    assert!(core.is_pending(&"abc".to_string()));
}

#[test]
fn unsolicited_event_reaches_stream_channel() {
    let mut core = BridgeCore::new();
    let msg = decode_line("{\"event\":\"token\",\"text\":\"hi\"}");
    match core.on_line(msg) {
        Routed::Stream { raw } => {
            assert_eq!(raw, json("{\"event\":\"token\",\"text\":\"hi\"}"));
        }
        _ => panic!("an event must reach the streaming channel"),
    }
    assert_eq!(core.pending_len(), 0);
}

#[test]
fn non_json_goes_to_log_sink() {
    let mut core = BridgeCore::new();
    let msg = decode_line("Traceback (most recent call last):");
    match core.on_line(msg) {
        Routed::Log { text } => assert_eq!(text, "Traceback (most recent call last):"),
        _ => panic!("plain text must go to the log sink"),
    }
}

#[test]
fn shapeless_json_is_dropped_with_diagnostic() {
    let mut core = BridgeCore::new();
    // JSON, no event key, no id/status pair
    let msg = decode_line("{\"foo\":1}");
    assert!(matches!(core.on_line(msg), Routed::Drop { .. }));
    // a numeric id does not make a response shape either
    let msg = decode_line("{\"id\":7,\"status\":\"ok\"}");
    assert!(matches!(core.on_line(msg), Routed::Drop { .. }));
}

#[test]
fn worker_closure_fails_every_pending_caller() {
    let mut core = BridgeCore::new();
    for i in 0..3 {
        core.begin_send(format!("id-{}", i), "cmd".to_string(), 0).unwrap();
    }
    let orphans = core.on_worker_closed();
    assert_eq!(orphans.len(), 3);
    assert_eq!(core.pending_len(), 0);
    let ids: Vec<&str> = orphans.iter().map(|e| e.id.as_str()).collect();
    assert_eq!(ids, vec!["id-0", "id-1", "id-2"]);
    // fail fast after closure
    match core.begin_send("late".to_string(), "cmd".to_string(), 0) {
        Err(BridgeError::WorkerClosed) => {}
        _ => panic!("send after closure must fail fast with WorkerClosed"),
    }
}

#[test]
fn shutdown_twice_is_harmless() {
    let mut core = BridgeCore::new();
    assert!(core.request_shutdown());
    assert!(!core.request_shutdown());
    // and new sends fail fast once shutdown has been requested
    match core.begin_send("x".to_string(), "cmd".to_string(), 0) {
        Err(BridgeError::WorkerClosed) => {}
        _ => panic!("send after shutdown must fail fast"),
    }
}

#[test]
fn duplicate_id_is_refused() {
    let mut core = BridgeCore::new();
    core.begin_send("dup".to_string(), "a".to_string(), 0).unwrap();
    match core.begin_send("dup".to_string(), "b".to_string(), 0) {
        Err(BridgeError::DuplicateId) => {}
        _ => panic!("a duplicate id must be refused"),
    }
    assert_eq!(core.pending_len(), 1);
}

#[test]
fn open_request_generates_fresh_ids() {
    let mut core = BridgeCore::new();
    let a = core.open_request("one".to_string(), 0).unwrap();
    let b = core.open_request("two".to_string(), 0).unwrap();
    assert_ne!(a, b);
    assert_eq!(a.len(), 36);
    assert!(core.is_pending(&a));
    assert!(core.is_pending(&b));
    assert_eq!(core.pending_len(), 2);
}

#[test]
fn classification_gives_events_priority() {
    // an event key beats a perfectly response-shaped value
    let raw = json("{\"event\":\"token\",\"id\":\"abc\",\"status\":\"ok\"}");
    let msg = classify(true, Some("abc".to_string()), Some("ok".to_string()), None, None, raw);
    assert!(matches!(msg, Inbound::Event { .. }));
    // a string id and status without an event key make a reply
    let raw = json("{\"id\":\"abc\",\"status\":\"ok\"}");
    match classify(false, Some("abc".to_string()), Some("ok".to_string()), None, None, raw) {
        Inbound::Reply { id, status, .. } => {
            assert_eq!(id, "abc");
            assert_eq!(status, "ok");
        }
        _ => panic!("a string id and status make a response shape"),
    }
    // a missing status leaves only the diagnostic drop
    let raw = json("{\"id\":\"abc\"}");
    let msg = classify(false, Some("abc".to_string()), None, None, None, raw);
    assert!(matches!(msg, Inbound::Other { .. }));
}

#[test]
fn failed_write_fails_exactly_that_caller() {
    let mut core = BridgeCore::new();
    core.begin_send("id-1".to_string(), "one".to_string(), 0).unwrap();
    core.begin_send("id-2".to_string(), "two".to_string(), 0).unwrap();
    match core.on_write_failed(&"id-1".to_string(), "broken pipe".to_string()) {
        Some(BridgeError::WriteFailed { detail }) => assert_eq!(detail, "broken pipe"),
        _ => panic!("a failed write must surface as WriteFailed"),
    }
    // that caller's entry is reclaimed; the other request is untouched
    assert!(!core.is_pending(&"id-1".to_string()));
    assert!(core.is_pending(&"id-2".to_string()));
    assert!(core.on_write_failed(&"id-1".to_string(), "again".to_string()).is_none());
    let e = BridgeError::WriteFailed { detail: "broken pipe".to_string() };
    assert_eq!(e.message(), "Failed to write to worker: broken pipe");
}

#[test]
fn cancelled_request_leaves_no_entry() {
    let mut core = BridgeCore::new();
    core.begin_send("id-1".to_string(), "one".to_string(), 0).unwrap();
    assert!(core.cancel_request(&"id-1".to_string()));
    assert_eq!(core.pending_len(), 0);
    assert!(!core.cancel_request(&"id-1".to_string()));
}

#[test]
fn interpret_reply_defaults() {
    // ok with no data yields JSON null
    let ok = "ok".to_string();
    assert_eq!(interpret_reply(&ok, None, None).unwrap(), Value::Null);
    // error status with a structured error renders it
    let bad = "error".to_string();
    let detail = json("{\"kind\":\"oops\"}");
    match interpret_reply(&bad, None, Some(detail)) {
        Err(BridgeError::Worker { detail }) => assert_eq!(detail, "{\"kind\":\"oops\"}"),
        _ => panic!("a non-ok status must report the worker's error"),
    }
    // error status without an error value gives the fixed description
    match interpret_reply(&bad, None, None) {
        Err(BridgeError::Worker { detail }) => assert_eq!(detail, "Unknown worker error"),
        _ => panic!("a non-ok status must report an error"),
    }
}

#[test]
fn null_data_counts_as_absent() {
    let msg = decode_line("{\"id\":\"i\",\"status\":\"ok\",\"data\":null}");
    match msg {
        Inbound::Reply { data, error, .. } => {
            assert!(data.is_none());
            assert!(error.is_none());
        }
        _ => panic!("a response shape with null data still is a response"),
    }
}

#[test]
fn error_messages_are_exact() {
    let e = BridgeError::Timeout { cmd: "analyze".to_string() };
    assert_eq!(
        e.message(),
        "Request timeout: worker did not respond to 'analyze' within 30 seconds"
    );
    assert_eq!(BridgeError::WorkerClosed.message(), "Worker channel closed");
    assert_eq!(BridgeError::DuplicateId.message(), "Duplicate request id");
    let w = BridgeError::Worker { detail: "boom".to_string() };
    assert_eq!(w.message(), "boom");
}

#[test]
fn encoded_command_is_one_parseable_line() {
    let id = "id-1".to_string();
    let cmd = "run \"it\"\nnow\\".to_string();
    let payload = json("{\"text\":\"line one\\nline two\"}");
    let line = encode_command(&id, &cmd, &payload);
    assert!(!line.contains('\n'));
    // the line round-trips through a real JSON parser
    let parsed = json(&line);
    assert_eq!(parsed.get("id").unwrap(), &Value::String("id-1".to_string()));
    assert_eq!(parsed.get("cmd").unwrap(), &Value::String("run \"it\"\nnow\\".to_string()));
    assert_eq!(parsed.get("payload").unwrap(), &payload);
}

#[test]
fn control_characters_are_escaped() {
    let id = "i".to_string();
    let cmd = "a\u{1}b\tc".to_string();
    let payload = Value::Null;
    let line = encode_command(&id, &cmd, &payload);
    assert!(line.contains("\\u0001"));
    assert!(line.contains("\\t"));
    let parsed = json(&line);
    assert_eq!(parsed.get("cmd").unwrap(), &Value::String("a\u{1}b\tc".to_string()));
}
