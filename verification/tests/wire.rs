use ene_kafka::messages::headers::Headers;
use ene_kafka::messages::kafka_message::{KafkaError, KafkaMessage, MessagePart};
use ene_kafka::messages::rdkafka_impl::{
    borrowed_headers_to_headers, headers_from_raw, owned_headers_to_headers, read_part, RawHeader,
    ReceivedMessage, ToRdkafkaHeaders,
};
use rdkafka::message::{Header, Headers as WireHeaders, OwnedHeaders};

fn text(key: &str, value: &str) -> RawHeader {
    RawHeader { key: key.to_string(), value: Some(value.as_bytes().to_vec()) }
}

fn wire_list() -> OwnedHeaders {
    OwnedHeaders::new()
        .insert(Header { key: "ce_type", value: Some("created") })
        .insert(Header { key: "empty", value: None::<&str> })
        .insert(Header { key: "ce_id", value: Some("1755") })
}

fn copied<List: WireHeaders>(list: &List) -> Vec<RawHeader> {
    (0..list.count())
        .map(|index| {
            let header = list.get(index);
            RawHeader { key: header.key.to_string(), value: header.value.map(|bytes| bytes.to_vec()) }
        })
        .collect()
}

#[test]
fn owned_headers_read_as_text_without_the_empty_ones() {
    let headers = owned_headers_to_headers(&copied(&wire_list())).unwrap();
    assert_eq!(headers.len(), 2);
    assert_eq!(headers.get("ce_type"), Some(&"created".to_string()));
    assert_eq!(headers.get("ce_id"), Some(&"1755".to_string()));
    assert_eq!(headers.get("empty"), None);
}

#[test]
fn borrowed_headers_read_as_text_without_the_empty_ones() {
    let list = wire_list();
    let headers = borrowed_headers_to_headers(&copied(list.as_borrowed())).unwrap();
    assert_eq!(headers.len(), 2);
    assert_eq!(headers.get("ce_type"), Some(&"created".to_string()));
    assert_eq!(headers.get("ce_id"), Some(&"1755".to_string()));
    assert!(!headers.contains_key("empty"));
}

#[test]
fn a_header_value_that_is_no_text_is_dropped() {
    let bytes: &[u8] = &[0xff, 0xfe];
    let list = OwnedHeaders::new()
        .insert(Header { key: "good", value: Some("fine") })
        .insert(Header { key: "bad", value: Some(bytes) })
        .insert(Header { key: "last", value: Some("too") });
    let owned = owned_headers_to_headers(&copied(&list)).unwrap();
    assert_eq!(owned.len(), 2);
    assert_eq!(owned.get("good"), Some(&"fine".to_string()));
    assert_eq!(owned.get("bad"), None);
    assert_eq!(owned.get("last"), Some(&"too".to_string()));
    let borrowed = borrowed_headers_to_headers(&copied(list.as_borrowed())).unwrap();
    assert_eq!(borrowed.len(), 2);
    assert_eq!(borrowed.get("bad"), None);
}

#[test]
fn an_unreadable_later_header_does_not_remove_an_earlier_one() {
    let raw = vec![
        text("k", "kept"),
        RawHeader { key: "k".to_string(), value: Some(vec![0xff]) },
        RawHeader { key: "k".to_string(), value: None },
    ];
    let headers = headers_from_raw(&raw);
    assert_eq!(headers.len(), 1);
    assert_eq!(headers.get("k"), Some(&"kept".to_string()));
}

#[test]
fn of_two_headers_with_one_key_the_later_stays() {
    let raw = vec![text("k", "first"), text("other", "x"), text("k", "second")];
    let headers = headers_from_raw(&raw);
    assert_eq!(headers.len(), 2);
    assert_eq!(headers.get("k"), Some(&"second".to_string()));
    assert_eq!(headers.get("other"), Some(&"x".to_string()));
}

#[test]
fn no_raw_headers_read_as_no_headers() {
    assert_eq!(headers_from_raw(&Vec::new()).len(), 0);
}

#[test]
fn headers_are_written_one_for_one_in_order() {
    let mut headers = Headers::new();
    headers.insert("ce_type".to_string(), "created".to_string());
    headers.insert("ce_id".to_string(), "é".to_string());
    let list = headers.to_rdkafka_headers().unwrap();
    assert_eq!(list.count(), 2);
    assert_eq!(list.get(0).key, "ce_type");
    assert_eq!(list.get(0).value, Some("created".as_bytes()));
    assert_eq!(list.get(1).key, "ce_id");
    assert_eq!(list.get(1).value, Some(&[0xc3u8, 0xa9][..]));
}

#[test]
fn no_headers_are_written_as_an_empty_list() {
    assert_eq!(Headers::new().to_rdkafka_headers().unwrap().count(), 0);
}

#[test]
fn written_headers_read_back_as_they_were() {
    let mut headers = Headers::new();
    headers.insert("a".to_string(), "1".to_string());
    headers.insert("b".to_string(), "zwei ä".to_string());
    headers.insert("c".to_string(), String::new());
    let back = owned_headers_to_headers(&copied(&headers.to_rdkafka_headers().unwrap())).unwrap();
    assert_eq!(back.len(), 3);
    assert_eq!(back.get("a"), Some(&"1".to_string()));
    assert_eq!(back.get("b"), Some(&"zwei ä".to_string()));
    assert_eq!(back.get("c"), Some(&String::new()));
}

#[test]
fn a_key_with_a_nul_character_is_written_like_any_other() {
    let mut headers = Headers::new();
    headers.insert("fine".to_string(), "1".to_string());
    headers.insert("bro\0ken".to_string(), "2".to_string());
    headers.insert("last".to_string(), "3".to_string());
    let list = headers.to_rdkafka_headers().unwrap();
    assert_eq!(list.count(), 3);
    assert_eq!(list.get(0).key, "fine");
    assert_eq!(list.get(1).value, Some(&b"2"[..]));
    assert_eq!(list.get(2).key, "last");
    assert_eq!(list.get(2).value, Some(&b"3"[..]));
}

#[test]
fn a_part_is_missing_invalid_or_text() {
    assert_eq!(read_part(&None, MessagePart::Payload), Err(KafkaError::Missing(MessagePart::Payload)));
    assert_eq!(read_part(&None, MessagePart::Key), Err(KafkaError::Missing(MessagePart::Key)));
    assert_eq!(
        read_part(&Some(vec![0xc3, 0x28]), MessagePart::Payload),
        Err(KafkaError::InvalidUtf8(MessagePart::Payload))
    );
    assert_eq!(
        read_part(&Some(vec![0xff]), MessagePart::Key),
        Err(KafkaError::InvalidUtf8(MessagePart::Key))
    );
    assert_eq!(
        read_part(&Some(vec![104, 195, 169]), MessagePart::Payload),
        Ok("hé".to_string())
    );
    assert_eq!(read_part(&Some(Vec::new()), MessagePart::Key), Ok(String::new()));
}

#[test]
fn a_received_message_answers_from_its_bytes() {
    let message = ReceivedMessage {
        topic: "test".to_string(),
        partition: 3,
        offset: 11,
        key: Some(b"1755".to_vec()),
        payload: Some(b"{\"entity_id\":1755}".to_vec()),
        headers: Some(vec![text("ce_type", "t"), RawHeader { key: "none".to_string(), value: None }]),
    };
    assert_eq!(message.topic().unwrap().name, "test");
    assert_eq!(message.key(), Ok("1755".to_string()));
    assert_eq!(message.payload(), Ok("{\"entity_id\":1755}".to_string()));
    let headers = message.headers().unwrap();
    assert_eq!(headers.len(), 1);
    assert_eq!(headers.get("ce_type"), Some(&"t".to_string()));
}

#[test]
fn a_received_message_without_bytes_fails_part_by_part() {
    let message = ReceivedMessage {
        topic: "test".to_string(),
        partition: 0,
        offset: 0,
        key: None,
        payload: Some(vec![0xff]),
        headers: Some(vec![RawHeader { key: "bad".to_string(), value: Some(vec![0x80]) }]),
    };
    assert_eq!(message.key(), Err(KafkaError::Missing(MessagePart::Key)));
    assert_eq!(message.payload(), Err(KafkaError::InvalidUtf8(MessagePart::Payload)));
    assert_eq!(message.headers().unwrap().len(), 0);
    let bare = ReceivedMessage { headers: None, ..message };
    assert_eq!(bare.headers().err(), Some(KafkaError::Missing(MessagePart::Headers)));
}

#[test]
fn set_topic_changes_the_topic_only() {
    let message = ReceivedMessage {
        topic: "test".to_string(),
        partition: 3,
        offset: 11,
        key: Some(b"k".to_vec()),
        payload: None,
        headers: Some(vec![text("a", "b")]),
    };
    let moved = message.clone().set_topic("test-dlq".to_string());
    assert_eq!(
        moved,
        ReceivedMessage { topic: "test-dlq".to_string(), ..message }
    );
}
