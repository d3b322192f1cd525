use servicebus_client::messages::{
    body_wire_text, broker_properties_header, dead_letter_path, decode_message_body, entity_path,
    message_entry_to_message, send_target_path, PeekState, PEEK_MAX_PER_REQUEST,
};
use servicebus_client::client::messages_from_entry_bodies;
use servicebus_client::error::SbError;
use servicebus_client::types::{MessageBody, ServiceBusMessage};
use servicebus_client::xmlfeed::extract_entry_bodies;

#[test]
fn entity_path_for_queue_and_subscription() {
    assert_eq!(entity_path(Some("q1"), None, None).unwrap(), "q1");
    assert_eq!(
        entity_path(None, Some("t1"), Some("s1")).unwrap(),
        "t1/Subscriptions/s1"
    );
    // a queue name wins even if topic details are also given
    assert_eq!(entity_path(Some("q1"), Some("t1"), Some("s1")).unwrap(), "q1");
}

#[test]
fn entity_path_requires_a_target() {
    match entity_path(None, Some("t1"), None) {
        Err(SbError::Validation(m)) => {
            assert!(m.contains("queue_name"));
        }
        other => panic!("expected Validation, got {:?}", other),
    }
    assert!(entity_path(None, None, None).is_err());
}

#[test]
fn dead_letter_paths_use_the_sub_queue_suffix() {
    assert_eq!(dead_letter_path("q1"), "q1/$deadletterqueue");
    assert_eq!(
        dead_letter_path("t1/Subscriptions/s1"),
        "t1/Subscriptions/s1/$deadletterqueue"
    );
}

#[test]
fn bodies_decode_json_then_text_then_binary() {
    match decode_message_body(b"{\"a\": 1}".to_vec()) {
        MessageBody::Json(s) => assert_eq!(s, "{\"a\": 1}"),
        other => panic!("expected Json, got {:?}", other),
    }
    match decode_message_body(b"hello there".to_vec()) {
        MessageBody::Text(s) => assert_eq!(s, "hello there"),
        other => panic!("expected Text, got {:?}", other),
    }
    match decode_message_body(vec![0xff, 0xfe, 0x00]) {
        MessageBody::Binary(v) => assert_eq!(v, vec![0xff, 0xfe, 0x00]),
        other => panic!("expected Binary, got {:?}", other),
    }
}

#[test]
fn message_entry_fields_and_broker_override() {
    let body = "<entry><title>m</title>\
        <content>{\"k\":\"v\"}</content>\
        <MessageId>entry-id</MessageId>\
        <SequenceNumber>5</SequenceNumber>\
        <BrokerProperties>{\"MessageId\":\"broker-id\",\"SequenceNumber\":12}</BrokerProperties>\
        </entry>";
    let m = message_entry_to_message(body);
    match &m.body {
        MessageBody::Json(s) => assert_eq!(s, "{\"k\":\"v\"}"),
        other => panic!("expected Json body, got {:?}", other),
    }
    // the broker's values override the entry's own elements
    assert_eq!(m.message_id.as_deref(), Some("broker-id"));
    assert_eq!(m.sequence_number, Some(12));
    assert!(m.correlation_id.is_none());
}

#[test]
fn message_entry_without_broker_properties() {
    let body = "<entry><content>plain words</content>\
        <MessageId>id-1</MessageId><CorrelationId>c-1</CorrelationId>\
        <ContentType>text/plain</ContentType><SequenceNumber>3</SequenceNumber></entry>";
    let m = message_entry_to_message(body);
    match &m.body {
        MessageBody::Text(s) => assert_eq!(s, "plain words"),
        other => panic!("expected Text body, got {:?}", other),
    }
    assert_eq!(m.message_id.as_deref(), Some("id-1"));
    assert_eq!(m.correlation_id.as_deref(), Some("c-1"));
    assert_eq!(m.content_type.as_deref(), Some("text/plain"));
    assert_eq!(m.sequence_number, Some(3));
}

#[test]
fn peeking_an_empty_queue_yields_an_empty_list() {
    // an empty feed decodes to no messages, and the peek state stops
    // without an error after the first empty page
    let bodies = extract_entry_bodies("<feed></feed>");
    let messages = messages_from_entry_bodies(&bodies);
    assert!(messages.is_empty());

    let mut state = PeekState::new(10);
    assert!(!state.done);
    let requested = state.next_request_count();
    assert_eq!(requested, 10);
    state.absorb(0, requested, None);
    assert!(state.done);
    assert_eq!(state.collected, 0);
}

#[test]
fn peek_state_pages_until_the_target() {
    let mut state = PeekState::new(80);
    assert_eq!(state.next_request_count(), PEEK_MAX_PER_REQUEST);
    state.absorb(32, 32, Some(31));
    assert!(!state.done);
    assert_eq!(state.collected, 32);
    assert_eq!(state.from_sequence, Some(31));
    state.absorb(32, 32, Some(63));
    assert!(!state.done);
    assert_eq!(state.next_request_count(), 16);
    // a short page means the entity is exhausted
    state.absorb(10, 16, Some(73));
    assert!(state.done);
    assert_eq!(state.collected, 74);
}

#[test]
fn send_body_and_headers() {
    assert_eq!(body_wire_text(&MessageBody::Json("{\"a\":1}".to_string())).unwrap(), "{\"a\":1}");
    assert_eq!(body_wire_text(&MessageBody::Text("hi".to_string())).unwrap(), "hi");
    assert_eq!(body_wire_text(&MessageBody::Empty).unwrap(), "null");
    assert!(matches!(
        body_wire_text(&MessageBody::Binary(vec![1, 2])),
        Err(SbError::Validation(_))
    ));

    let mut m = ServiceBusMessage::with_body(MessageBody::Text("x".to_string()));
    assert!(broker_properties_header(&m).is_none());
    m.message_id = Some("abc".to_string());
    assert_eq!(
        broker_properties_header(&m).as_deref(),
        Some("{\"MessageId\":\"abc\"}")
    );
}

#[test]
fn broker_properties_carry_every_present_standard_field() {
    let mut m = ServiceBusMessage::with_body(MessageBody::Text("x".to_string()));
    m.message_id = Some("id1".to_string());
    m.session_id = Some("s9".to_string());
    m.subject = Some("greeting".to_string());
    m.time_to_live = Some(120);
    assert_eq!(
        broker_properties_header(&m).as_deref(),
        Some("{\"MessageId\":\"id1\",\"SessionId\":\"s9\",\"Label\":\"greeting\",\"TimeToLive\":120}")
    );
}

#[test]
fn send_target_is_queue_then_topic() {
    assert_eq!(send_target_path(Some("q1"), None).unwrap(), "q1");
    assert_eq!(send_target_path(None, Some("t1")).unwrap(), "t1");
    assert_eq!(send_target_path(Some("q1"), Some("t1")).unwrap(), "q1");
    match send_target_path(None, None) {
        Err(SbError::Validation(m)) => {
            assert_eq!(m, "Either queue_name or topic_name must be provided");
        }
        other => panic!("expected Validation, got {:?}", other),
    }
}

#[test]
fn an_over_delivering_page_never_pushes_past_max_count() {
    // ask for 3 but hand the state a page of 5: only the first 3 are
    // kept, in page order, and the peek is complete
    let mut page: Vec<ServiceBusMessage> = Vec::new();
    for i in 0..5u64 {
        let mut m = ServiceBusMessage::with_body(MessageBody::Text(format!("m{}", i)));
        m.sequence_number = Some(i);
        page.push(m);
    }
    let mut all: Vec<ServiceBusMessage> = Vec::new();
    let mut state = PeekState::new(3);
    let requested = state.next_request_count();
    state.absorb_page(page, requested, &mut all);
    assert!(state.done);
    assert_eq!(state.collected, 3);
    assert_eq!(all.len(), 3);
    assert_eq!(all[0].sequence_number, Some(0));
    assert_eq!(all[2].sequence_number, Some(2));
    // the cursor still reflects the page's last message
    assert_eq!(state.from_sequence, Some(4));
}

#[test]
fn absorb_page_gathers_pages_in_order() {
    let mut all: Vec<ServiceBusMessage> = Vec::new();
    let mut state = PeekState::new(10);
    let mut first: Vec<ServiceBusMessage> = Vec::new();
    for i in 0..4u64 {
        let mut m = ServiceBusMessage::with_body(MessageBody::Empty);
        m.sequence_number = Some(i);
        first.push(m);
    }
    let requested = state.next_request_count();
    state.absorb_page(first, requested, &mut all);
    // a page shorter than requested means the entity is exhausted
    assert!(state.done);
    assert_eq!(state.collected, 4);
    assert_eq!(state.from_sequence, Some(3));
    assert_eq!(all.len(), 4);
}
