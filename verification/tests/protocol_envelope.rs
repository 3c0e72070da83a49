use aethos_core::protocol::HelloEnvelope;

#[test]
fn hello_envelope_serializes() {
    let envelope = HelloEnvelope::new("wf-123");
    let serialized = envelope.to_json().expect("serialize envelope");

    assert!(serialized.contains("\"message_type\":\"hello\""));
    assert!(serialized.contains("\"wayfair_id\":\"wf-123\""));
}

#[test]
fn hello_envelope_fields() {
    let envelope = HelloEnvelope::new("wf-123");
    assert_eq!(envelope.version, "0.1");
    assert_eq!(envelope.message_type, "hello");
    assert_eq!(envelope.platform, "linux");
    assert_eq!(envelope.client, "aethos-linux");
    assert_eq!(envelope.wayfair_id, "wf-123");
    assert_eq!(aethos_core::protocol::PROTOCOL_VERSION, "0.1");
}

#[test]
fn hello_envelope_wire_form_is_exact() {
    let envelope = HelloEnvelope::new("wf-123");
    assert_eq!(
        envelope.to_json().expect("serialize envelope"),
        "{\"version\":\"0.1\",\"message_type\":\"hello\",\"platform\":\"linux\",\"client\":\"aethos-linux\",\"wayfair_id\":\"wf-123\"}"
    );
}

#[test]
fn hello_envelope_escapes_the_identifier() {
    let envelope = HelloEnvelope::new("a\"b\\c\nd\u{1}\u{e9}");
    let serialized = envelope.to_json().expect("serialize envelope");
    assert!(serialized.ends_with(",\"wayfair_id\":\"a\\\"b\\\\c\\nd\\u0001\u{e9}\"}"));
    let parsed: serde_json::Value = serde_json::from_str(&serialized).expect("valid json");
    assert_eq!(parsed["wayfair_id"], "a\"b\\c\nd\u{1}\u{e9}");
    assert_eq!(parsed["version"], "0.1");
}
