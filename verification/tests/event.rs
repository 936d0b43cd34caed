use user_registration::event::EventBus;
use user_registration::event::encode_registered_event;
use user_registration::event::registered_event_subject;

#[test]
fn payload_is_the_expected_json() {
    let bytes = encode_registered_event(7, "Ada", "ada@example.com");
    assert_eq!(
        String::from_utf8(bytes).unwrap(),
        "{\"event\":\"user.registered\",\"user\":{\"id\":7,\"username\":\"Ada\",\"email\":\"ada@example.com\"}}"
    );
}

#[test]
fn payload_escapes_json_metacharacters() {
    let bytes = encode_registered_event(1, "A\"B\\C", "tab\there");
    assert_eq!(
        String::from_utf8(bytes).unwrap(),
        "{\"event\":\"user.registered\",\"user\":{\"id\":1,\"username\":\"A\\\"B\\\\C\",\"email\":\"tab\\there\"}}"
    );
}

#[test]
fn payload_escapes_control_bytes() {
    let bytes = encode_registered_event(0, "a\u{1}b", "x");
    assert_eq!(
        String::from_utf8(bytes).unwrap(),
        "{\"event\":\"user.registered\",\"user\":{\"id\":0,\"username\":\"a\\u0001b\",\"email\":\"x\"}}"
    );
}

#[test]
fn payload_renders_negative_ids() {
    let bytes = encode_registered_event(-42, "n", "n@e");
    assert_eq!(
        String::from_utf8(bytes).unwrap(),
        "{\"event\":\"user.registered\",\"user\":{\"id\":-42,\"username\":\"n\",\"email\":\"n@e\"}}"
    );
}

#[test]
fn payload_parses_as_json() {
    let bytes = encode_registered_event(123456, "Grace \\ \"Hopper\"\n", "grace@example.com");
    let value: serde_json::Value = serde_json::from_slice(&bytes).unwrap();
    assert_eq!(value["event"].as_str(), Some("user.registered"));
    assert_eq!(value["user"]["id"].as_i64(), Some(123456));
    assert_eq!(value["user"]["username"].as_str(), Some("Grace \\ \"Hopper\"\n"));
    assert_eq!(value["user"]["email"].as_str(), Some("grace@example.com"));
}

#[test]
fn bus_records_published_events() {
    let mut bus = EventBus::new();
    assert_eq!(bus.published_count(), 0);
    let payload = encode_registered_event(1, "a", "b");
    let sent = bus.publish(registered_event_subject().to_owned(), payload.clone());
    assert!(sent.is_ok());
    assert_eq!(bus.published_count(), 1);
    assert_eq!(bus.published_at(0).subject, "user.registered");
    assert_eq!(bus.published_at(0).payload, payload);
}

#[test]
fn subject_is_user_registered() {
    assert_eq!(registered_event_subject(), "user.registered");
}
