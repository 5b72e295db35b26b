//! The envelope model: topic, key, payload and headers of one message.

use vstd::prelude::*;
use vstd::slice::slice_to_vec;
use vstd::utf8::encode_utf8;
use crate::messages::headers::Headers;

verus! {

/// The parts of a message that are carried as bytes on the wire.
#[derive(Debug, Clone, Copy, PartialEq, Eq, Structural)]
pub enum MessagePart {
    Payload,
    Key,
    Headers,
}

/// The six pieces of metadata that make a message a cloud event.
#[derive(Debug, Clone, Copy, PartialEq, Eq, Structural)]
pub enum MetadataField {
    SpecVersion,
    Type,
    Source,
    Id,
    Time,
    ContentType,
}

/// Why an operation of this library failed.
#[derive(Debug, Clone, PartialEq, Eq)]
pub enum KafkaError {
    /// A content type other than the supported ones was named.
    InvalidContentType,
    /// The message carries no such part at all.
    Missing(MessagePart),
    /// The bytes of the part are not UTF-8 text.
    InvalidUtf8(MessagePart),
    /// A header that every cloud event must carry is absent.
    MissingMetadata(MetadataField),
    /// No registered handler accepts events of this type.
    NoHandler(String),
    /// The payload could not be turned into the handler's event.
    Deserialization(String),
    /// The handler's own action failed.
    Handler(String),
    /// The broker reported that the message was not delivered.
    Delivery(String),
    /// The broker refused or failed an administrative request.
    Broker(String),
}

/// What a [`KafkaError`] says, with text as sequences of characters.
pub enum KafkaErrorView {
    InvalidContentType,
    Missing(MessagePart),
    InvalidUtf8(MessagePart),
    MissingMetadata(MetadataField),
    NoHandler(Seq<char>),
    Deserialization(Seq<char>),
    Handler(Seq<char>),
    Delivery(Seq<char>),
    Broker(Seq<char>),
}

impl View for KafkaError {
    type V = KafkaErrorView;

    open spec fn view(&self) -> KafkaErrorView {
        match *self {
            KafkaError::InvalidContentType => KafkaErrorView::InvalidContentType,
            KafkaError::Missing(part) => KafkaErrorView::Missing(part),
            KafkaError::InvalidUtf8(part) => KafkaErrorView::InvalidUtf8(part),
            KafkaError::MissingMetadata(field) => KafkaErrorView::MissingMetadata(field),
            KafkaError::NoHandler(event_type) => KafkaErrorView::NoHandler(event_type@),
            KafkaError::Deserialization(reason) => KafkaErrorView::Deserialization(reason@),
            KafkaError::Handler(reason) => KafkaErrorView::Handler(reason@),
            KafkaError::Delivery(diagnostic) => KafkaErrorView::Delivery(diagnostic@),
            KafkaError::Broker(diagnostic) => KafkaErrorView::Broker(diagnostic@),
        }
    }
}

/// A text as it stands in specifications.
pub type Text = Seq<char>;

/// The outcome of producing a text, as it stands in specifications.
pub open spec fn text_result(res: Result<String, KafkaError>) -> Result<Text, KafkaErrorView> {
    match res {
        Ok(text) => Ok(text@),
        Err(error) => Err(error@),
    }
}

/// Whether two pieces of text hold the same characters.
pub fn same_text(a: &str, b: &str) -> (same: bool)
    ensures
        same == (a@ == b@),
{
    let left: String = a.to_owned();
    let right: String = b.to_owned();
    left == right
}

/// The encoding of a message payload.
#[derive(Debug, Clone, Copy, PartialEq, Eq, Structural)]
pub enum ContentType {
    Json,
}

/// The name under which the JSON content type is written.
pub open spec fn json_name() -> Text {
    seq!['j', 's', 'o', 'n']
}

impl ContentType {
    /// Reads a content type from its name: `"json"` is the only one.
    pub fn from_str(content_type: &str) -> (res: Result<ContentType, KafkaError>)
        ensures
            content_type@ == json_name() ==> res == Ok::<ContentType, KafkaError>(ContentType::Json),
            content_type@ != json_name() ==> res == Err::<ContentType, KafkaError>(
                KafkaError::InvalidContentType,
            ),
    {
        proof {
            reveal_strlit("json");
        }
        assert("json"@ =~= json_name());
        if same_text(content_type, "json") {
            Ok(ContentType::Json)
        } else {
            Err(KafkaError::InvalidContentType)
        }
    }
}

/// A topic of the broker and the encoding of the payloads written to it.
#[derive(Debug, Clone)]
pub struct KafkaTopic {
    pub name: String,
    pub content_type: ContentType,
}

/// A [`KafkaTopic`] with its name as a sequence of characters.
pub struct TopicView {
    pub name: Text,
    pub content_type: ContentType,
}

impl View for KafkaTopic {
    type V = TopicView;

    open spec fn view(&self) -> TopicView {
        TopicView { name: self.name@, content_type: self.content_type }
    }
}

impl KafkaTopic {
    /// A copy of this topic.
    pub fn duplicate(&self) -> (copy: KafkaTopic)
        ensures
            copy@ == self@,
    {
        KafkaTopic { name: self.name.clone(), content_type: self.content_type }
    }
}

/// The outcome of resolving a topic, as it stands in specifications.
pub open spec fn topic_result(res: Result<KafkaTopic, KafkaError>) -> Result<
    TopicView,
    KafkaErrorView,
> {
    match res {
        Ok(topic) => Ok(topic@),
        Err(error) => Err(error@),
    }
}

/// The outcome of producing bytes, as it stands in specifications.
pub open spec fn bytes_result(res: Result<Vec<u8>, KafkaError>) -> Result<Seq<u8>, KafkaErrorView> {
    match res {
        Ok(bytes) => Ok(bytes@),
        Err(error) => Err(error@),
    }
}

/// The outcome of resolving headers, as it stands in specifications.
pub open spec fn headers_result(res: Result<Headers, KafkaError>) -> Result<
    Map<Text, Text>,
    KafkaErrorView,
> {
    match res {
        Ok(headers) => Ok(headers@),
        Err(error) => Err(error@),
    }
}

/// A key or payload that can be written as bytes.
pub trait ToBytes {
    /// The bytes that this value is written as, or why it cannot be written.
    spec fn bytes_spec(&self) -> Result<Seq<u8>, KafkaErrorView>;

    fn to_bytes(&self) -> (res: Result<Vec<u8>, KafkaError>)
        ensures
            bytes_result(res) == self.bytes_spec(),
    ;
}

impl ToBytes for String {
    /// A text is written as its UTF-8 encoding.
    open spec fn bytes_spec(&self) -> Result<Seq<u8>, KafkaErrorView> {
        Ok(encode_utf8(self@))
    }

    fn to_bytes(&self) -> (res: Result<Vec<u8>, KafkaError>) {
        let bytes: Vec<u8> = slice_to_vec(self.as_str().as_bytes());
        Ok(bytes)
    }
}

/// The minimal unit that travels through the broker. Each of the four
/// parts is a projection of the value itself: asking twice gives the same
/// answer, and a part that cannot be produced is an error, never a default.
pub trait KafkaMessage {
    spec fn topic_spec(&self) -> Result<TopicView, KafkaErrorView>;

    spec fn payload_spec(&self) -> Result<Text, KafkaErrorView>;

    spec fn key_spec(&self) -> Result<Text, KafkaErrorView>;

    spec fn headers_spec(&self) -> Result<Map<Text, Text>, KafkaErrorView>;

    fn topic(&self) -> (res: Result<KafkaTopic, KafkaError>)
        ensures
            topic_result(res) == self.topic_spec(),
    ;

    fn payload(&self) -> (res: Result<String, KafkaError>)
        ensures
            text_result(res) == self.payload_spec(),
    ;

    fn key(&self) -> (res: Result<String, KafkaError>)
        ensures
            text_result(res) == self.key_spec(),
    ;

    fn headers(&self) -> (res: Result<Headers, KafkaError>)
        ensures
            headers_result(res) == self.headers_spec(),
    ;
}

/// A message whose four parts are already at hand.
#[derive(Debug)]
pub struct Envelope {
    pub topic: KafkaTopic,
    pub key: String,
    pub payload: String,
    pub headers: Headers,
}

/// An [`Envelope`] with its text as sequences of characters.
pub struct EnvelopeView {
    pub topic: TopicView,
    pub key: Text,
    pub payload: Text,
    pub headers: Map<Text, Text>,
}

impl View for Envelope {
    type V = EnvelopeView;

    open spec fn view(&self) -> EnvelopeView {
        EnvelopeView {
            topic: self.topic@,
            key: self.key@,
            payload: self.payload@,
            headers: self.headers@,
        }
    }
}

/// The envelope that four resolved parts make. The parts are asked for
/// in the order payload, key, topic, headers, and the first that fails
/// is the outcome.
pub open spec fn envelope_of(
    payload: Result<Text, KafkaErrorView>,
    key: Result<Text, KafkaErrorView>,
    topic: Result<TopicView, KafkaErrorView>,
    headers: Result<Map<Text, Text>, KafkaErrorView>,
) -> Result<EnvelopeView, KafkaErrorView> {
    if payload is Err {
        Err(payload->Err_0)
    } else if key is Err {
        Err(key->Err_0)
    } else if topic is Err {
        Err(topic->Err_0)
    } else if headers is Err {
        Err(headers->Err_0)
    } else {
        Ok(
            EnvelopeView {
                topic: topic->Ok_0,
                key: key->Ok_0,
                payload: payload->Ok_0,
                headers: headers->Ok_0,
            },
        )
    }
}

/// The outcome of building an envelope, as it stands in specifications.
pub open spec fn envelope_result(res: Result<Envelope, KafkaError>) -> Result<
    EnvelopeView,
    KafkaErrorView,
> {
    match res {
        Ok(envelope) => Ok(envelope@),
        Err(error) => Err(error@),
    }
}

impl Envelope {
    /// Resolves the four parts of a message, once, into an envelope.
    pub fn resolve<M: KafkaMessage>(message: &M) -> (res: Result<Envelope, KafkaError>)
        ensures
            envelope_result(res) == envelope_of(
                message.payload_spec(),
                message.key_spec(),
                message.topic_spec(),
                message.headers_spec(),
            ),
    {
        let payload = message.payload()?;
        let key = message.key()?;
        let topic = message.topic()?;
        let headers = message.headers()?;
        Ok(Envelope { topic, key, payload, headers })
    }
}

impl KafkaMessage for Envelope {
    open spec fn topic_spec(&self) -> Result<TopicView, KafkaErrorView> {
        Ok(self.topic@)
    }

    open spec fn payload_spec(&self) -> Result<Text, KafkaErrorView> {
        Ok(self.payload@)
    }

    open spec fn key_spec(&self) -> Result<Text, KafkaErrorView> {
        Ok(self.key@)
    }

    open spec fn headers_spec(&self) -> Result<Map<Text, Text>, KafkaErrorView> {
        Ok(self.headers@)
    }

    fn topic(&self) -> (res: Result<KafkaTopic, KafkaError>) {
        Ok(self.topic.duplicate())
    }

    fn payload(&self) -> (res: Result<String, KafkaError>) {
        Ok(self.payload.clone())
    }

    fn key(&self) -> (res: Result<String, KafkaError>) {
        Ok(self.key.clone())
    }

    fn headers(&self) -> (res: Result<Headers, KafkaError>) {
        Ok(self.headers.duplicate())
    }
}

} // verus!
