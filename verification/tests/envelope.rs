use ene_kafka::messages::headers::Headers;
use ene_kafka::messages::kafka_message::{
    same_text, ContentType, Envelope, KafkaError, KafkaMessage, KafkaTopic, ToBytes,
};

fn topic(name: &str) -> KafkaTopic {
    KafkaTopic { name: name.to_string(), content_type: ContentType::Json }
}

#[test]
fn json_is_the_only_content_type() {
    assert_eq!(ContentType::from_str("json"), Ok(ContentType::Json));
    assert_eq!(ContentType::from_str("xml"), Err(KafkaError::InvalidContentType));
    assert_eq!(ContentType::from_str(""), Err(KafkaError::InvalidContentType));
    assert_eq!(ContentType::from_str("JSON"), Err(KafkaError::InvalidContentType));
    assert_eq!(ContentType::from_str("json "), Err(KafkaError::InvalidContentType));
}

#[test]
fn same_text_compares_characters() {
    assert!(same_text("abc", "abc"));
    assert!(same_text("", ""));
    assert!(!same_text("abc", "abd"));
    assert!(!same_text("abc", "ab"));
}

#[test]
fn text_is_written_as_utf8() {
    assert_eq!(String::from("héllo").to_bytes(), Ok("héllo".as_bytes().to_vec()));
    assert_eq!(String::from("héllo").to_bytes(), Ok(vec![104, 195, 169, 108, 108, 111]));
    assert_eq!(String::new().to_bytes(), Ok(Vec::new()));
}

#[test]
fn new_headers_are_empty() {
    let headers = Headers::new();
    assert_eq!(headers.len(), 0);
    assert_eq!(headers.get("a"), None);
    assert!(!headers.contains_key("a"));
}

#[test]
fn headers_keep_one_value_per_key() {
    let mut headers = Headers::new();
    headers.insert("a".to_string(), "1".to_string());
    headers.insert("b".to_string(), "2".to_string());
    headers.insert("a".to_string(), "3".to_string());
    assert_eq!(headers.len(), 2);
    assert_eq!(headers.get("a"), Some(&"3".to_string()));
    assert_eq!(headers.get("b"), Some(&"2".to_string()));
    assert_eq!(headers.get("c"), None);
    assert!(headers.contains_key("b"));
    assert!(!headers.contains_key("B"));
}

#[test]
fn headers_keep_the_order_of_first_insertion() {
    let mut headers = Headers::new();
    headers.insert("z".to_string(), "1".to_string());
    headers.insert("a".to_string(), "2".to_string());
    headers.insert("z".to_string(), "3".to_string());
    assert_eq!(headers.key_at(0), "z");
    assert_eq!(headers.value_at(0), "3");
    assert_eq!(headers.key_at(1), "a");
    assert_eq!(headers.value_at(1), "2");
}

#[test]
fn a_copy_of_headers_holds_the_same_entries() {
    let mut headers = Headers::new();
    headers.insert("k".to_string(), "v".to_string());
    let mut copy = headers.duplicate();
    copy.insert("other".to_string(), "w".to_string());
    assert_eq!(copy.get("k"), Some(&"v".to_string()));
    assert_eq!(copy.len(), 2);
    assert_eq!(headers.len(), 1);
}

#[test]
fn an_envelope_answers_with_its_parts() {
    let mut headers = Headers::new();
    headers.insert("h".to_string(), "x".to_string());
    let envelope = Envelope {
        topic: topic("test"),
        key: "k".to_string(),
        payload: "p".to_string(),
        headers,
    };
    let resolved = envelope.topic().unwrap();
    assert_eq!(resolved.name, "test");
    assert_eq!(resolved.content_type, ContentType::Json);
    assert_eq!(envelope.key(), Ok("k".to_string()));
    assert_eq!(envelope.payload(), Ok("p".to_string()));
    assert_eq!(envelope.headers().unwrap().get("h"), Some(&"x".to_string()));
}

#[test]
fn resolving_an_envelope_copies_all_four_parts() {
    let mut headers = Headers::new();
    headers.insert("h".to_string(), "x".to_string());
    let envelope = Envelope {
        topic: topic("test"),
        key: "k".to_string(),
        payload: "p".to_string(),
        headers,
    };
    let resolved = Envelope::resolve(&envelope).unwrap();
    assert_eq!(resolved.topic.name, "test");
    assert_eq!(resolved.key, "k");
    assert_eq!(resolved.payload, "p");
    assert_eq!(resolved.headers.len(), 1);
    assert_eq!(resolved.headers.get("h"), Some(&"x".to_string()));
}

#[test]
fn a_topic_copy_has_the_same_name() {
    let copy = topic("orders").duplicate();
    assert_eq!(copy.name, "orders");
    assert_eq!(copy.content_type, ContentType::Json);
}
