//! Sending: a message is resolved into the record that goes to the
//! broker before anything touches the network, and the broker's delivery
//! report is mapped into the outcome of the send.

use vstd::prelude::*;
use vstd::utf8::encode_utf8;
use rdkafka::message::OwnedHeaders;
use crate::messages::cloud_events::cloud_event::{lemma_metadata_round_trip, CloudEvent};
use crate::messages::cloud_events::event_record::{EventRecord, HeaderType};
use crate::messages::headers::{distinct_keys, pairs_map};
use crate::messages::kafka_message::{
    KafkaError, KafkaErrorView, KafkaMessage, Text, ToBytes, TopicView,
};
use crate::messages::rdkafka_impl::{
    decode_headers, lemma_wire_round_trip, owned_headers_entries, wire_pairs,
    ReceivedMessage, ToRdkafkaHeaders, WireHeader,
};

verus! {

/// What goes to the broker for one message, and how long the producer
/// may wait for room in its queue: `None` is for as long as it takes.
#[derive(Debug)]
pub struct ProducerRecord {
    pub topic: String,
    pub payload: Vec<u8>,
    pub key: Vec<u8>,
    pub headers: OwnedHeaders,
    pub queue_timeout_ms: Option<u64>,
}

/// The wire headers are the entries of the map, each once, in some order.
pub open spec fn carries(wire: Seq<WireHeader>, headers: Map<Text, Text>) -> bool {
    exists|pairs: Seq<(Text, Text)>|
        distinct_keys(pairs) && pairs_map(pairs) == headers && #[trigger] wire_pairs(pairs) == wire
}

/// Why a message cannot be sent, if it cannot. Its parts are resolved in
/// the order payload, key, topic, headers, and the first failure counts.
pub open spec fn resolution_failure(
    payload: Result<Text, KafkaErrorView>,
    key: Result<Text, KafkaErrorView>,
    topic: Result<TopicView, KafkaErrorView>,
    headers: Result<Map<Text, Text>, KafkaErrorView>,
) -> Option<KafkaErrorView> {
    if payload is Err {
        Some(payload->Err_0)
    } else if key is Err {
        Some(key->Err_0)
    } else if topic is Err {
        Some(topic->Err_0)
    } else if headers is Err {
        Some(headers->Err_0)
    } else {
        None
    }
}

/// The record is the message, resolved: its topic's name, the UTF-8
/// bytes of its payload and key, and its headers on the wire. Its wait
/// is unbounded: how long a send takes is for the caller to limit.
pub open spec fn is_record_of(
    record: ProducerRecord,
    payload: Text,
    key: Text,
    topic: TopicView,
    headers: Map<Text, Text>,
) -> bool {
    &&& record.topic@ == topic.name
    &&& record.payload@ == encode_utf8(payload)
    &&& record.key@ == encode_utf8(key)
    &&& carries(owned_headers_entries(record.headers), headers)
    &&& record.queue_timeout_ms is None
}

/// Resolves a message into the record to send. Fails, before anything is
/// sent, exactly where a part of the message cannot be resolved.
pub fn prepare_record<M: KafkaMessage>(message: &M) -> (res: Result<ProducerRecord, KafkaError>)
    ensures
        match resolution_failure(
            message.payload_spec(),
            message.key_spec(),
            message.topic_spec(),
            message.headers_spec(),
        ) {
            Some(reason) => res matches Err(error) && error@ == reason,
            None => res matches Ok(record) && is_record_of(
                record,
                message.payload_spec()->Ok_0,
                message.key_spec()->Ok_0,
                message.topic_spec()->Ok_0,
                message.headers_spec()->Ok_0,
            ),
        },
{
    let payload = message.payload()?.to_bytes()?;
    let key = message.key()?.to_bytes()?;
    let topic = message.topic()?;
    let headers = message.headers()?;
    proof {
        use_type_invariant(&headers);
    }
    let wire = headers.to_rdkafka_headers()?;
    Ok(ProducerRecord { topic: topic.name, payload, key, headers: wire, queue_timeout_ms: None })
}

/// A record that was prepared from headers reads back as those headers.
pub proof fn lemma_carried_headers_read_back(wire: Seq<WireHeader>, headers: Map<Text, Text>)
    requires
        carries(wire, headers),
    ensures
        decode_headers(wire) == headers,
{
    let pairs = choose|pairs: Seq<(Text, Text)>|
        distinct_keys(pairs) && pairs_map(pairs) == headers && #[trigger] wire_pairs(pairs) == wire;
    lemma_wire_round_trip(pairs);
}

/// An event that was sent describes itself to whoever receives it as it
/// did to its sender: where a received message carries the headers that
/// were prepared for a record with event metadata, each of its six
/// metadata accessors gives what the record's accessor gives.
pub proof fn lemma_sent_metadata_reads_back(
    record: EventRecord,
    wire: Seq<WireHeader>,
    received: ReceivedMessage,
)
    requires
        record.message.headers == HeaderType::CloudEvent,
        carries(wire, record.headers_spec()->Ok_0),
        received.wire_headers() == Some(wire),
    ensures
        received.spec_version_spec() == record.spec_version_spec(),
        received.event_type_spec() == record.event_type_spec(),
        received.event_source_spec() == record.event_source_spec(),
        received.event_id_spec() == record.event_id_spec(),
        received.event_time_spec() == record.event_time_spec(),
        received.event_content_type_spec() == record.event_content_type_spec(),
{
    lemma_carried_headers_read_back(wire, record.metadata());
    lemma_metadata_round_trip(
        record.event.version@,
        record.event.event_type@,
        record.event.event_source@,
        record.id@,
        record.time@,
        record.event.content_type@,
    );
}

/// What the broker reported for a record.
#[derive(Debug, PartialEq, Eq)]
pub enum DeliveryReport {
    /// The record was acknowledged.
    Delivered,
    /// The record was not delivered; the text is the broker's diagnostic.
    Failed(String),
}

/// The outcome of a send, given the broker's report: a failure becomes
/// one error that carries the diagnostic. Nothing is retried.
pub fn delivery_outcome(report: DeliveryReport) -> (res: Result<(), KafkaError>)
    ensures
        match report {
            DeliveryReport::Delivered => res == Ok::<(), KafkaError>(()),
            DeliveryReport::Failed(diagnostic) => res == Err::<(), KafkaError>(
                KafkaError::Delivery(diagnostic),
            ),
        },
{
    match report {
        DeliveryReport::Delivered => Ok(()),
        DeliveryReport::Failed(diagnostic) => Err(KafkaError::Delivery(diagnostic)),
    }
}

} // verus!
