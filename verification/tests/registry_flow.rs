use std::sync::Arc;
use std::sync::Mutex;

use js_bridge::bridge::Bridge;

#[test]
fn test_callback_registration() {
    let received_data: Arc<Mutex<Option<String>>> = Arc::new(Mutex::new(None));
    let received_data_clone = received_data.clone();

    let mut bridge: Bridge<Box<dyn Fn(String)>> = Bridge::new();
    bridge.register_callback(
        "test_callback".to_string(),
        Box::new(move |json: String| {
            let mut data = received_data_clone.lock().unwrap();
            *data = Some(json);
        }),
    );

    // Simulate the host runtime invoking the reverse entry point.
    if let Some(callback) = bridge.on_message_from_host("test_callback") {
        callback("{\"test\": \"data\"}".to_string());
    }

    let data = received_data.lock().unwrap();
    assert!(data.is_some());
    assert_eq!(data.as_ref().unwrap(), "{\"test\": \"data\"}");
}

#[test]
fn registry_round_trip_calls_handler_exactly_once() {
    let calls: Arc<Mutex<Vec<String>>> = Arc::new(Mutex::new(Vec::new()));
    let calls_clone = calls.clone();

    let mut bridge: Bridge<Box<dyn Fn(String)>> = Bridge::new();
    bridge.register_callback(
        "x".to_string(),
        Box::new(move |payload: String| calls_clone.lock().unwrap().push(payload)),
    );

    if let Some(handler) = bridge.on_message_from_host("x") {
        handler("{\"p\": 1}".to_string());
    }
    assert_eq!(calls.lock().unwrap().as_slice(), &["{\"p\": 1}".to_string()]);

    bridge.unregister_callback("x");
    assert!(bridge.on_message_from_host("x").is_none());
    assert_eq!(calls.lock().unwrap().len(), 1);
}

#[test]
fn registering_again_replaces_the_handler() {
    let mut bridge: Bridge<u32> = Bridge::new();
    bridge.register_callback("cb".to_string(), 1);
    bridge.register_callback("cb".to_string(), 2);
    assert_eq!(bridge.on_message_from_host("cb"), Some(&2));
}

#[test]
fn unknown_identifier_is_a_silent_no_op() {
    let bridge: Bridge<u32> = Bridge::new();
    assert!(bridge.on_message_from_host("never_registered").is_none());
}

#[test]
fn unregistering_twice_is_harmless() {
    let mut bridge: Bridge<u32> = Bridge::new();
    bridge.register_callback("cb".to_string(), 5);
    bridge.unregister_callback("cb");
    bridge.unregister_callback("cb");
    assert!(bridge.on_message_from_host("cb").is_none());
}
