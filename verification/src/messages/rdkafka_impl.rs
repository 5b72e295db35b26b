//! Messages as the broker delivers them, and headers on the wire: reading
//! the headers of a received message into [`Headers`] and writing
//! [`Headers`] out as a header list of the broker client.

use vstd::prelude::*;
use rdkafka::message::{Header, OwnedHeaders};
use vstd::utf8::{decode_utf8, encode_utf8, valid_utf8};
use crate::messages::cloud_events::cloud_event::{
    metadata_from_headers, read_metadata, CloudEvent,
};
use crate::messages::headers::{pairs_map, Headers};
use crate::messages::kafka_message::{
    text_result, ContentType, KafkaError, KafkaErrorView, KafkaMessage,
    KafkaTopic, MessagePart, MetadataField, Text, TopicView,
};

verus! {

/// One header as the broker carries it: a text key and, perhaps, bytes.
#[derive(Debug, Clone, PartialEq, Eq)]
pub struct RawHeader {
    pub key: String,
    pub value: Option<Vec<u8>>,
}

/// A header of the wire in specifications.
pub type WireHeader = (Text, Option<Seq<u8>>);

impl View for RawHeader {
    type V = WireHeader;

    open spec fn view(&self) -> WireHeader {
        (
            self.key@,
            match self.value {
                Some(bytes) => Some(bytes@),
                None => None,
            },
        )
    }
}

/// Whether a header of the wire can be read: it carries a value, and
/// the value is UTF-8 text.
pub open spec fn is_readable(header: WireHeader) -> bool {
    header.1 matches Some(bytes) && valid_utf8(bytes)
}

/// The headers of a list that can be read, each value read as UTF-8
/// text, in the order of the list.
pub open spec fn decoded_pairs(wire: Seq<WireHeader>) -> Seq<(Text, Text)>
    decreases wire.len(),
{
    if wire.len() == 0 {
        Seq::empty()
    } else {
        let front = decoded_pairs(wire.drop_last());
        if is_readable(wire.last()) {
            front.push((wire.last().0, decode_utf8(wire.last().1->Some_0)))
        } else {
            front
        }
    }
}

/// What a header list of the wire reads as: a header without a value, or
/// with a value that is not text, is dropped, and of two headers with
/// one key the later one stays.
pub open spec fn decode_headers(wire: Seq<WireHeader>) -> Map<Text, Text> {
    pairs_map(decoded_pairs(wire))
}

/// What headers are written as: one header of the wire for each entry,
/// in order, its value encoded as UTF-8.
pub open spec fn wire_pairs(pairs: Seq<(Text, Text)>) -> Seq<WireHeader> {
    Seq::new(pairs.len(), |i: int| (pairs[i].0, Some(encode_utf8(pairs[i].1))))
}

/// Calls `String::from_utf8`: the text that the bytes encode, where they
/// are valid UTF-8, and nothing where they are not.
#[verifier::external_body]
pub(crate) fn text_from_utf8(bytes: Vec<u8>) -> (text: Option<String>)
    ensures
        text is Some <==> valid_utf8(bytes@),
        text matches Some(s) ==> s@ == decode_utf8(bytes@),
{
    match String::from_utf8(bytes) {
        Ok(text) => Some(text),
        Err(_) => None,
    }
}

/// Reads a list of wire headers, given one by one.
pub fn headers_from_raw(raw: &Vec<RawHeader>) -> (headers: Headers)
    ensures
        headers@ == decode_headers(raw@.map_values(|h: RawHeader| h@)),
{
    let ghost wire = raw@.map_values(|h: RawHeader| h@);
    let mut headers = Headers::new();
    let mut index: usize = 0;
    while index < raw.len()
        invariant
            index <= raw.len(),
            wire == raw@.map_values(|h: RawHeader| h@),
            headers@ == pairs_map(decoded_pairs(wire.take(index as int))),
        decreases raw.len() - index,
    {
        let ghost seen = wire.take(index as int);
        let ghost next = wire.take(index + 1);
        assert(next.drop_last() =~= seen);
        assert(next.last() == wire[index as int]);
        assert(wire[index as int] == raw@[index as int]@);
        match &raw[index].value {
            Some(bytes) => {
                let copy: Vec<u8> = bytes.clone();
                assert(copy@ == bytes@);
                match text_from_utf8(copy) {
                    Some(value) => {
                        let ghost front = decoded_pairs(seen);
                        let ghost pair = (raw@[index as int].key@, value@);
                        headers.insert(raw[index].key.clone(), value);
                        assert(decoded_pairs(next) == front.push(pair));
                        assert(front.push(pair).drop_last() =~= front);
                    },
                    None => {},
                }
            },
            None => {},
        }
        index = index + 1;
    }
    assert(wire.take(index as int) =~= wire);
    headers
}

/// The broker client's header list that owns its storage.
#[verifier::external_type_specification]
#[verifier::external_body]
pub struct ExOwnedHeaders(OwnedHeaders);

/// The headers that an owned list stores, first to last: each key as the
/// text that it was given, each value as its bytes.
pub uninterp spec fn owned_headers_entries(headers: OwnedHeaders) -> Seq<WireHeader>;

/// Calls `OwnedHeaders::new`: a list without any header.
#[verifier::external_body]
fn owned_headers_new() -> (headers: OwnedHeaders)
    ensures
        owned_headers_entries(headers) == Seq::<WireHeader>::empty(),
{
    OwnedHeaders::new()
}

/// Calls `OwnedHeaders::insert`: the header is stored behind those that
/// the list holds, its key in full and the bytes of the text as its value.
#[verifier::external_body]
fn owned_headers_insert(headers: OwnedHeaders, key: &str, value: &str) -> (res: OwnedHeaders)
    ensures
        owned_headers_entries(res) == owned_headers_entries(headers).push(
            (key@, Some(encode_utf8(value@))),
        ),
{
    headers.insert(Header { key, value: Some(value) })
}

/// Reads headers that were copied out of a borrowed list. Those without
/// a value, or with a value that is not UTF-8 text, are left out; reading
/// never fails.
pub fn borrowed_headers_to_headers(headers: &Vec<RawHeader>) -> (res: Result<Headers, KafkaError>)
    ensures
        res matches Ok(read) && read@ == decode_headers(headers@.map_values(|h: RawHeader| h@)),
{
    Ok(headers_from_raw(headers))
}

/// Reads headers that were copied out of an owned list. Those without a
/// value, or with a value that is not UTF-8 text, are left out; reading
/// never fails.
pub fn owned_headers_to_headers(headers: &Vec<RawHeader>) -> (res: Result<Headers, KafkaError>)
    ensures
        res matches Ok(read) && read@ == decode_headers(headers@.map_values(|h: RawHeader| h@)),
{
    Ok(headers_from_raw(headers))
}

/// What can be written out as a header list of the broker client.
pub trait ToRdkafkaHeaders {
    /// The headers of the wire that this value is written as.
    spec fn wire_spec(&self) -> Result<Seq<WireHeader>, KafkaErrorView>;

    fn to_rdkafka_headers(&self) -> (res: Result<OwnedHeaders, KafkaError>)
        ensures
            match self.wire_spec() {
                Ok(wire) => res matches Ok(list) && owned_headers_entries(list) == wire,
                Err(reason) => res matches Err(error) && error@ == reason,
            },
    ;
}

impl ToRdkafkaHeaders for Headers {
    /// One header for each entry, in order; every entry can be written.
    open spec fn wire_spec(&self) -> Result<Seq<WireHeader>, KafkaErrorView> {
        Ok(wire_pairs(self.pairs()))
    }

    fn to_rdkafka_headers(&self) -> (res: Result<OwnedHeaders, KafkaError>) {
        let count = self.len();
        let mut list = owned_headers_new();
        let mut index: usize = 0;
        while index < count
            invariant
                index <= count,
                count == self.pairs().len(),
                owned_headers_entries(list) == wire_pairs(self.pairs().take(index as int)),
            decreases count - index,
        {
            let key = self.key_at(index);
            let value = self.value_at(index);
            let ghost seen = self.pairs().take(index as int);
            let ghost next = self.pairs().take(index + 1);
            list = owned_headers_insert(list, key.as_str(), value.as_str());
            assert(wire_pairs(next) =~= wire_pairs(seen).push(
                (key@, Some(encode_utf8(value@))),
            ));
            index = index + 1;
        }
        assert(self.pairs().take(index as int) =~= self.pairs());
        Ok(list)
    }
}

/// Headers that were written to the wire read back as they were.
pub proof fn lemma_wire_round_trip(pairs: Seq<(Text, Text)>)
    ensures
        decoded_pairs(wire_pairs(pairs)) == pairs,
        decode_headers(wire_pairs(pairs)) == pairs_map(pairs),
    decreases pairs.len(),
{
    let wire = wire_pairs(pairs);
    if pairs.len() > 0 {
        lemma_wire_round_trip(pairs.drop_last());
        assert(wire.drop_last() =~= wire_pairs(pairs.drop_last()));
        vstd::utf8::encode_utf8_valid_utf8(pairs.last().1);
        vstd::utf8::encode_utf8_decode_utf8(pairs.last().1);
        assert(is_readable(wire.last()));
        assert(decoded_pairs(wire) =~= pairs);
    } else {
        assert(decoded_pairs(wire) =~= pairs);
    }
}

/// A message as the broker delivered it: where it came from and the
/// bytes that it carries, each of which may be absent.
#[derive(Debug, Clone, PartialEq, Eq)]
pub struct ReceivedMessage {
    pub topic: String,
    pub partition: i32,
    pub offset: i64,
    pub key: Option<Vec<u8>>,
    pub payload: Option<Vec<u8>>,
    pub headers: Option<Vec<RawHeader>>,
}

/// What a part of a received message reads as: an absent part and bytes
/// that are not UTF-8 text are two different failures.
pub open spec fn part_text(bytes: Option<Vec<u8>>, part: MessagePart) -> Result<
    Text,
    KafkaErrorView,
> {
    match bytes {
        None => Err(KafkaErrorView::Missing(part)),
        Some(bytes) => if valid_utf8(bytes@) {
            Ok(decode_utf8(bytes@))
        } else {
            Err(KafkaErrorView::InvalidUtf8(part))
        },
    }
}

/// Reads a part of a received message as text.
pub fn read_part(bytes: &Option<Vec<u8>>, part: MessagePart) -> (res: Result<String, KafkaError>)
    ensures
        text_result(res) == part_text(*bytes, part),
{
    match bytes {
        None => Err(KafkaError::Missing(part)),
        Some(bytes) => {
            let copy: Vec<u8> = bytes.clone();
            assert(copy@ == bytes@);
            match text_from_utf8(copy) {
                Some(text) => Ok(text),
                None => Err(KafkaError::InvalidUtf8(part)),
            }
        },
    }
}

impl ReceivedMessage {
    /// The headers of the wire that this message carries, if any.
    pub open spec fn wire_headers(&self) -> Option<Seq<WireHeader>> {
        match self.headers {
            Some(raw) => Some(raw@.map_values(|h: RawHeader| h@)),
            None => None,
        }
    }

    /// The same message under another topic.
    pub fn set_topic(self, topic: String) -> (moved: ReceivedMessage)
        ensures
            moved.topic == topic,
            moved.partition == self.partition,
            moved.offset == self.offset,
            moved.key == self.key,
            moved.payload == self.payload,
            moved.headers == self.headers,
    {
        ReceivedMessage {
            topic,
            partition: self.partition,
            offset: self.offset,
            key: self.key,
            payload: self.payload,
            headers: self.headers,
        }
    }

    /// Reads one piece of event metadata from the headers of this message.
    pub fn metadata(&self, field: MetadataField) -> (res: Result<String, KafkaError>)
        ensures
            text_result(res) == read_metadata(self.headers_spec(), field),
    {
        let headers = self.headers()?;
        metadata_from_headers(&headers, field)
    }
}

impl KafkaMessage for ReceivedMessage {
    open spec fn topic_spec(&self) -> Result<TopicView, KafkaErrorView> {
        Ok(TopicView { name: self.topic@, content_type: ContentType::Json })
    }

    open spec fn payload_spec(&self) -> Result<Text, KafkaErrorView> {
        part_text(self.payload, MessagePart::Payload)
    }

    open spec fn key_spec(&self) -> Result<Text, KafkaErrorView> {
        part_text(self.key, MessagePart::Key)
    }

    open spec fn headers_spec(&self) -> Result<Map<Text, Text>, KafkaErrorView> {
        match self.wire_headers() {
            None => Err(KafkaErrorView::Missing(MessagePart::Headers)),
            Some(wire) => Ok(decode_headers(wire)),
        }
    }

    fn topic(&self) -> (res: Result<KafkaTopic, KafkaError>) {
        Ok(KafkaTopic { name: self.topic.clone(), content_type: ContentType::Json })
    }

    fn payload(&self) -> (res: Result<String, KafkaError>) {
        read_part(&self.payload, MessagePart::Payload)
    }

    fn key(&self) -> (res: Result<String, KafkaError>) {
        read_part(&self.key, MessagePart::Key)
    }

    fn headers(&self) -> (res: Result<Headers, KafkaError>) {
        match &self.headers {
            None => Err(KafkaError::Missing(MessagePart::Headers)),
            Some(raw) => Ok(headers_from_raw(raw)),
        }
    }
}

impl CloudEvent for ReceivedMessage {
    open spec fn spec_version_spec(&self) -> Result<Text, KafkaErrorView> {
        read_metadata(self.headers_spec(), MetadataField::SpecVersion)
    }

    open spec fn event_type_spec(&self) -> Result<Text, KafkaErrorView> {
        read_metadata(self.headers_spec(), MetadataField::Type)
    }

    open spec fn event_source_spec(&self) -> Result<Text, KafkaErrorView> {
        read_metadata(self.headers_spec(), MetadataField::Source)
    }

    open spec fn event_id_spec(&self) -> Result<Text, KafkaErrorView> {
        read_metadata(self.headers_spec(), MetadataField::Id)
    }

    open spec fn event_time_spec(&self) -> Result<Text, KafkaErrorView> {
        read_metadata(self.headers_spec(), MetadataField::Time)
    }

    open spec fn event_content_type_spec(&self) -> Result<Text, KafkaErrorView> {
        read_metadata(self.headers_spec(), MetadataField::ContentType)
    }

    fn spec_version(&self) -> (res: Result<String, KafkaError>) {
        self.metadata(MetadataField::SpecVersion)
    }

    fn event_type(&self) -> (res: Result<String, KafkaError>) {
        self.metadata(MetadataField::Type)
    }

    fn event_source(&self) -> (res: Result<String, KafkaError>) {
        self.metadata(MetadataField::Source)
    }

    fn event_id(&self) -> (res: Result<String, KafkaError>) {
        self.metadata(MetadataField::Id)
    }

    fn event_time(&self) -> (res: Result<String, KafkaError>) {
        self.metadata(MetadataField::Time)
    }

    fn event_content_type(&self) -> (res: Result<String, KafkaError>) {
        self.metadata(MetadataField::ContentType)
    }
}

} // verus!
