use js_bridge::client::JsBridge;
use js_bridge::inbox::HostInbox;
use js_bridge::registry::CallbackRegistry;

#[test]
fn receive_strict_value_sets_data() {
    let mut b = JsBridge::new("cb".to_string());
    b.receive_host_value("{\"v\": 1}");
    assert_eq!(b.get_data().unwrap(), "{\"v\": 1}");
    assert!(b.get_error().is_none());
}

#[test]
fn receive_fallback_value_sets_data() {
    let mut b = JsBridge::new("cb".to_string());
    b.receive_host_value("\"{\\\"v\\\": 2}\"");
    assert_eq!(b.get_data().unwrap(), "{\"v\": 2}");
    assert!(b.get_error().is_none());
}

#[test]
fn receive_bad_value_records_error_and_keeps_data() {
    let mut b = JsBridge::new("cb".to_string());
    b.receive_host_value("{\"v\": 3}");
    b.receive_host_value("garbage");
    assert_eq!(b.get_data().unwrap(), "{\"v\": 3}");
    assert_eq!(b.get_error().unwrap(), "payload is not well-formed JSON");
}

#[test]
fn receive_good_value_clears_earlier_error() {
    let mut b = JsBridge::new("cb".to_string());
    b.receive_host_value("garbage");
    assert!(b.get_error().is_some());
    b.receive_host_value("{\"v\": 4}");
    assert_eq!(b.get_data().unwrap(), "{\"v\": 4}");
    assert!(b.get_error().is_none());
}

#[test]
fn getters_and_setters_round_trip() {
    let mut b = JsBridge::new("cb7".to_string());
    assert_eq!(b.callback_id(), "cb7");
    b.set_data(Some("{}".to_string()));
    b.set_error(Some("boom".to_string()));
    assert_eq!(b.get_data().unwrap(), "{}");
    assert_eq!(b.get_error().unwrap(), "boom");
    b.set_data(None);
    b.set_error(None);
    assert!(b.get_data().is_none());
    assert!(b.get_error().is_none());
}

#[test]
fn envelope_for_uses_own_callback_id() {
    let b = JsBridge::new("id_1".to_string());
    assert_eq!(b.envelope_for("[1]"), "{\"callback_id\":\"id_1\",\"data\":[1]}");
}

#[test]
fn inbox_parks_until_listener_installed() {
    let mut inbox = HostInbox::new();
    assert!(inbox.receive("one".to_string()).is_none());
    assert!(inbox.receive("two".to_string()).is_none());
    let replay = inbox.install_listener();
    assert_eq!(replay, vec!["one".to_string(), "two".to_string()]);
    assert_eq!(inbox.receive("three".to_string()).unwrap(), "three");
    assert!(inbox.install_listener().is_empty());
}

#[test]
fn registry_len_counts_identifiers() {
    let mut r: CallbackRegistry<u8> = CallbackRegistry::new();
    assert_eq!(r.len(), 0);
    r.register_callback("a".to_string(), 1);
    r.register_callback("b".to_string(), 2);
    r.register_callback("a".to_string(), 3);
    assert_eq!(r.len(), 2);
    assert_eq!(r.invoke("a"), Some(&3));
    r.unregister_callback("a");
    assert_eq!(r.len(), 1);
}
