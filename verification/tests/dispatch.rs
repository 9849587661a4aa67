use horizon_core::dispatch::{
    BoundedQueue, DispatchAction, DispatchPhase, Dispatcher, OutboundLine,
    OUTBOUND_QUEUE_CAPACITY, SHUTDOWN_GRACE_MS,
};

fn item(id: &str, line: &str) -> OutboundLine {
    OutboundLine { id: id.to_string(), line: line.to_string() }
}

#[test]
fn queue_is_fifo_with_hard_capacity() {
    let mut q = BoundedQueue::new(2);
    q.try_push(item("a", "first")).unwrap();
    q.try_push(item("b", "second")).unwrap();
    match q.try_push(item("c", "third")) {
        Err(back) => {
            assert_eq!(back.id, "c");
            assert_eq!(back.line, "third");
        }
        Ok(()) => panic!("a full queue must refuse the item"),
    }
    assert_eq!(q.len(), 2);
    assert_eq!(q.pop_front().unwrap().line, "first");
    assert_eq!(q.pop_front().unwrap().line, "second");
    assert!(q.pop_front().is_none());
}

#[test]
fn dispatcher_serves_queue_in_order() {
    let mut d = Dispatcher::new();
    d.enqueue(item("1", "one")).unwrap();
    d.enqueue(item("2", "two")).unwrap();
    match d.next_action(false) {
        DispatchAction::Write(out) => {
            assert_eq!(out.id, "1");
            assert_eq!(out.line, "one");
        }
        _ => panic!("queued traffic must be written"),
    }
    match d.next_action(false) {
        DispatchAction::Write(out) => assert_eq!(out.line, "two"),
        _ => panic!("queued traffic must be written"),
    }
    assert!(matches!(d.next_action(false), DispatchAction::Idle));
}

#[test]
fn shutdown_wins_the_race_and_wins_once() {
    let mut d = Dispatcher::new();
    d.enqueue(item("1", "queued")).unwrap();
    // the shutdown signal beats queued traffic
    match d.next_action(true) {
        DispatchAction::ShutdownSequence(line) => {
            assert_eq!(line, "{\"id\":\"shutdown\",\"cmd\":\"shutdown\",\"payload\":{}}");
        }
        _ => panic!("shutdown must win the race"),
    }
    assert_eq!(d.phase, DispatchPhase::Stopped);
    // a second shutdown signal does not kill a second time
    assert!(matches!(d.next_action(true), DispatchAction::Idle));
    assert!(matches!(d.next_action(false), DispatchAction::Idle));
}

#[test]
fn stopped_dispatcher_fails_new_traffic_fast() {
    let mut d = Dispatcher::new();
    let _ = d.next_action(true);
    match d.enqueue(item("x", "late")) {
        Err(back) => assert_eq!(back.line, "late"),
        Ok(()) => panic!("traffic after shutdown must fail fast"),
    }
}

#[test]
fn runtime_constants() {
    assert_eq!(OUTBOUND_QUEUE_CAPACITY, 100);
    assert_eq!(SHUTDOWN_GRACE_MS, 500);
    let d = Dispatcher::new();
    assert_eq!(d.phase, DispatchPhase::Running);
}
