//! Events described by data: what a kind of event declares once, and the
//! record of one such event, ready to be sent.

use vstd::prelude::*;
use crate::messages::cloud_events::cloud_event::{
    headers_of_metadata, metadata_headers, CloudEvent,
};
use crate::messages::headers::Headers;
use crate::messages::kafka_message::{
    same_text, ContentType, KafkaError, KafkaErrorView, KafkaMessage, KafkaTopic, Text,
    TopicView,
};

verus! {

/// Which headers the messages of a kind carry.
#[derive(Debug, Clone, Copy, PartialEq, Eq, Structural)]
pub enum HeaderType {
    /// The six metadata headers of a cloud event.
    CloudEvent,
    /// No headers.
    Empty,
}

impl HeaderType {
    /// Reads a header type from its name: `"CloudEvent"` is the one name
    /// that asks for headers.
    pub fn from_name(name: &str) -> (header_type: HeaderType)
        ensures
            header_type == if name@ == "CloudEvent"@ {
                HeaderType::CloudEvent
            } else {
                HeaderType::Empty
            },
    {
        if same_text(name, "CloudEvent") {
            HeaderType::CloudEvent
        } else {
            HeaderType::Empty
        }
    }

    /// The name under which a header type is shown.
    pub fn name(&self) -> (name: &'static str)
        ensures
            name@ == match *self {
                HeaderType::CloudEvent => "CloudEvent"@,
                HeaderType::Empty => "Custom"@,
            },
    {
        match self {
            HeaderType::CloudEvent => "CloudEvent",
            HeaderType::Empty => "Custom",
        }
    }
}

/// What a kind of message declares: the topic that it is written to, the
/// encoding of its payload, and which headers it carries.
#[derive(Debug, Clone)]
pub struct KafkaMessageAttributes {
    pub topic: String,
    pub serde: ContentType,
    pub headers: HeaderType,
}

/// What a kind of event declares about itself.
#[derive(Debug, Clone)]
pub struct CloudEventAttributes {
    pub content_type: String,
    pub version: String,
    pub event_type: String,
    pub event_source: String,
}

/// The version of the event format that is declared where none is given.
pub open spec fn default_version() -> Text {
    "1.0"@
}

impl CloudEventAttributes {
    /// The attributes of a kind of event in the default format version.
    pub fn new(content_type: String, event_type: String, event_source: String) -> (attributes: Self)
        ensures
            attributes.content_type == content_type,
            attributes.version@ == default_version(),
            attributes.event_type == event_type,
            attributes.event_source == event_source,
    {
        CloudEventAttributes {
            content_type,
            version: "1.0".to_owned(),
            event_type,
            event_source,
        }
    }
}

/// One event of a declared kind: what its kind declares, and what is its
/// own, which are its key, its identity, its time and its payload.
#[derive(Debug, Clone)]
pub struct EventRecord {
    pub message: KafkaMessageAttributes,
    pub event: CloudEventAttributes,
    pub key: String,
    pub id: String,
    pub time: String,
    pub payload: String,
}

impl EventRecord {
    /// The six metadata headers of this record.
    pub open spec fn metadata(&self) -> Map<Text, Text> {
        metadata_headers(
            Ok(self.event.version@),
            Ok(self.event.event_type@),
            Ok(self.event.event_source@),
            Ok(self.id@),
            Ok(self.time@),
            Ok(self.event.content_type@),
        )->Ok_0
    }
}

impl KafkaMessage for EventRecord {
    /// The declared topic; the payloads of declared kinds are JSON.
    open spec fn topic_spec(&self) -> Result<TopicView, KafkaErrorView> {
        Ok(TopicView { name: self.message.topic@, content_type: ContentType::Json })
    }

    open spec fn payload_spec(&self) -> Result<Text, KafkaErrorView> {
        Ok(self.payload@)
    }

    open spec fn key_spec(&self) -> Result<Text, KafkaErrorView> {
        Ok(self.key@)
    }

    /// The metadata headers where the kind declares them, none otherwise.
    open spec fn headers_spec(&self) -> Result<Map<Text, Text>, KafkaErrorView> {
        match self.message.headers {
            HeaderType::CloudEvent => Ok(self.metadata()),
            HeaderType::Empty => Ok(Map::empty()),
        }
    }

    fn topic(&self) -> (res: Result<KafkaTopic, KafkaError>) {
        Ok(KafkaTopic { name: self.message.topic.clone(), content_type: ContentType::Json })
    }

    fn payload(&self) -> (res: Result<String, KafkaError>) {
        Ok(self.payload.clone())
    }

    fn key(&self) -> (res: Result<String, KafkaError>) {
        Ok(self.key.clone())
    }

    fn headers(&self) -> (res: Result<Headers, KafkaError>) {
        match self.message.headers {
            HeaderType::CloudEvent => Ok(
                headers_of_metadata(
                    self.event.version.clone(),
                    self.event.event_type.clone(),
                    self.event.event_source.clone(),
                    self.id.clone(),
                    self.time.clone(),
                    self.event.content_type.clone(),
                ),
            ),
            HeaderType::Empty => Ok(Headers::new()),
        }
    }
}

impl CloudEvent for EventRecord {
    open spec fn spec_version_spec(&self) -> Result<Text, KafkaErrorView> {
        Ok(self.event.version@)
    }

    open spec fn event_type_spec(&self) -> Result<Text, KafkaErrorView> {
        Ok(self.event.event_type@)
    }

    open spec fn event_source_spec(&self) -> Result<Text, KafkaErrorView> {
        Ok(self.event.event_source@)
    }

    open spec fn event_id_spec(&self) -> Result<Text, KafkaErrorView> {
        Ok(self.id@)
    }

    open spec fn event_time_spec(&self) -> Result<Text, KafkaErrorView> {
        Ok(self.time@)
    }

    open spec fn event_content_type_spec(&self) -> Result<Text, KafkaErrorView> {
        Ok(self.event.content_type@)
    }

    fn spec_version(&self) -> (res: Result<String, KafkaError>) {
        Ok(self.event.version.clone())
    }

    fn event_type(&self) -> (res: Result<String, KafkaError>) {
        Ok(self.event.event_type.clone())
    }

    fn event_source(&self) -> (res: Result<String, KafkaError>) {
        Ok(self.event.event_source.clone())
    }

    fn event_id(&self) -> (res: Result<String, KafkaError>) {
        Ok(self.id.clone())
    }

    fn event_time(&self) -> (res: Result<String, KafkaError>) {
        Ok(self.time.clone())
    }

    fn event_content_type(&self) -> (res: Result<String, KafkaError>) {
        Ok(self.event.content_type.clone())
    }
}

} // verus!
