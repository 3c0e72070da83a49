use aethos_core::dispatcher::{
    DispatcherError, RelayFrame, RelayRequestDispatcher, CORRELATION_PREFIX,
};

fn frame(id: &str, message_type: &str) -> RelayFrame {
    RelayFrame {
        correlation_id: id.to_string(),
        message_type: message_type.to_string(),
        payload: serde_json::Value::Null,
    }
}

#[test]
fn new_dispatcher_waits_for_nothing() {
    let dispatcher = RelayRequestDispatcher::default();
    assert_eq!(dispatcher.pending_count(), 0);
}

#[test]
fn correlation_ids_count_up_from_one() {
    let mut dispatcher = RelayRequestDispatcher::default();
    let ids: Vec<String> = (0..12)
        .map(|_| {
            dispatcher
                .register_outbound("hello", serde_json::Value::Null)
                .correlation_id
        })
        .collect();
    let expected: Vec<String> = (1..=12).map(|n| format!("linux-{}", n)).collect();
    assert_eq!(ids, expected);
    assert_eq!(dispatcher.pending_count(), 12);
    assert_eq!(CORRELATION_PREFIX, "linux-");
}

#[test]
fn frame_carries_type_and_payload() {
    let mut dispatcher = RelayRequestDispatcher::default();
    let payload = serde_json::Value::from(vec![1, 2, 3]);
    let outbound = dispatcher.register_outbound("hello", payload.clone());
    assert_eq!(outbound.correlation_id, "linux-1");
    assert_eq!(outbound.message_type, "hello");
    assert_eq!(outbound.payload, payload);
}

#[test]
fn reply_is_paired_with_its_request() {
    let mut dispatcher = RelayRequestDispatcher::default();
    dispatcher.register_outbound("first", serde_json::Value::Null);
    dispatcher.register_outbound("second", serde_json::Value::Null);
    dispatcher.register_outbound("third", serde_json::Value::Null);

    let payload = serde_json::Value::from("body");
    let reply = RelayFrame {
        correlation_id: "linux-2".to_string(),
        message_type: "second_ack".to_string(),
        payload: payload.clone(),
    };
    let dispatched = dispatcher.resolve_response(reply).expect("known id");
    assert_eq!(dispatched.correlation_id, "linux-2");
    assert_eq!(dispatched.request_message_type, "second");
    assert_eq!(dispatched.response_message_type, "second_ack");
    assert_eq!(dispatched.payload, payload);
    assert_eq!(dispatcher.pending_count(), 2);

    let dispatched = dispatcher.resolve_response(frame("linux-3", "x")).expect("known id");
    assert_eq!(dispatched.request_message_type, "third");
    let dispatched = dispatcher.resolve_response(frame("linux-1", "x")).expect("known id");
    assert_eq!(dispatched.request_message_type, "first");
    assert_eq!(dispatcher.pending_count(), 0);
}

#[test]
fn unknown_id_leaves_the_waiting_requests() {
    let mut dispatcher = RelayRequestDispatcher::default();
    dispatcher.register_outbound("hello", serde_json::Value::Null);
    for id in ["linux-2", "linux-01", "linux-", "linux-1 ", "LINUX-1", "1", ""] {
        assert_eq!(
            dispatcher.resolve_response(frame(id, "pong")).err(),
            Some(DispatcherError::UnknownCorrelationId)
        );
        assert_eq!(dispatcher.pending_count(), 1);
    }
}

#[test]
fn a_reply_is_dispatched_once() {
    let mut dispatcher = RelayRequestDispatcher::default();
    let outbound = dispatcher.register_outbound("hello", serde_json::Value::Null);
    assert!(dispatcher
        .resolve_response(frame(&outbound.correlation_id, "ack"))
        .is_ok());
    assert_eq!(
        dispatcher
            .resolve_response(frame(&outbound.correlation_id, "ack"))
            .err(),
        Some(DispatcherError::UnknownCorrelationId)
    );
    assert_eq!(dispatcher.pending_count(), 0);
}

#[test]
fn ids_are_not_reused_after_resolution() {
    let mut dispatcher = RelayRequestDispatcher::default();
    let first = dispatcher.register_outbound("hello", serde_json::Value::Null);
    dispatcher
        .resolve_response(frame(&first.correlation_id, "ack"))
        .expect("known id");
    let second = dispatcher.register_outbound("hello", serde_json::Value::Null);
    assert_eq!(second.correlation_id, "linux-2");
    assert_eq!(dispatcher.pending_count(), 1);
}
