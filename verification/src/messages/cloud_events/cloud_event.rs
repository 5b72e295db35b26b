//! Event metadata: type, identity, source, time, version and content type
//! of an event, written into and read back from message headers.

use vstd::prelude::*;
use crate::messages::headers::Headers;
use crate::messages::kafka_message::{
    envelope_of, envelope_result, headers_result, text_result, Envelope, KafkaError,
    KafkaErrorView, KafkaMessage, MetadataField, Text,
};

verus! {

/// The header under which a piece of metadata travels.
pub open spec fn header_name(field: MetadataField) -> Text {
    match field {
        MetadataField::SpecVersion => "ce_specversion"@,
        MetadataField::Type => "ce_type"@,
        MetadataField::Source => "ce_source"@,
        MetadataField::Id => "ce_id"@,
        MetadataField::Time => "ce_time"@,
        MetadataField::ContentType => "content_type"@,
    }
}

/// Different pieces of metadata travel under different headers.
pub proof fn lemma_header_names_differ(a: MetadataField, b: MetadataField)
    ensures
        header_name(a) == header_name(b) <==> a == b,
{
    reveal_strlit("ce_specversion");
    reveal_strlit("ce_type");
    reveal_strlit("ce_source");
    reveal_strlit("ce_id");
    reveal_strlit("ce_time");
    reveal_strlit("content_type");
    if a != b {
        let x = header_name(a);
        let y = header_name(b);
        assert(x.len() != y.len() || x[4] != y[4]);
    }
}

/// The header under which a piece of metadata travels.
pub fn header_key(field: MetadataField) -> (name: &'static str)
    ensures
        name@ == header_name(field),
{
    match field {
        MetadataField::SpecVersion => "ce_specversion",
        MetadataField::Type => "ce_type",
        MetadataField::Source => "ce_source",
        MetadataField::Id => "ce_id",
        MetadataField::Time => "ce_time",
        MetadataField::ContentType => "content_type",
    }
}

/// The six metadata headers of an event whose accessors gave these
/// answers, asked in this order: the first failure is the outcome.
pub open spec fn metadata_headers(
    spec_version: Result<Text, KafkaErrorView>,
    event_type: Result<Text, KafkaErrorView>,
    event_source: Result<Text, KafkaErrorView>,
    event_id: Result<Text, KafkaErrorView>,
    event_time: Result<Text, KafkaErrorView>,
    content_type: Result<Text, KafkaErrorView>,
) -> Result<Map<Text, Text>, KafkaErrorView> {
    if spec_version is Err {
        Err(spec_version->Err_0)
    } else if event_type is Err {
        Err(event_type->Err_0)
    } else if event_source is Err {
        Err(event_source->Err_0)
    } else if event_id is Err {
        Err(event_id->Err_0)
    } else if event_time is Err {
        Err(event_time->Err_0)
    } else if content_type is Err {
        Err(content_type->Err_0)
    } else {
        Ok(
            Map::<Text, Text>::empty().insert(
                header_name(MetadataField::SpecVersion),
                spec_version->Ok_0,
            ).insert(header_name(MetadataField::Type), event_type->Ok_0).insert(
                header_name(MetadataField::Source),
                event_source->Ok_0,
            ).insert(header_name(MetadataField::Id), event_id->Ok_0).insert(
                header_name(MetadataField::Time),
                event_time->Ok_0,
            ).insert(header_name(MetadataField::ContentType), content_type->Ok_0),
        )
    }
}

/// What reading one piece of metadata from resolved headers gives: the
/// failure of the headers themselves, the value under the field's header,
/// or the field's name as the one that is missing.
pub open spec fn read_metadata(
    headers: Result<Map<Text, Text>, KafkaErrorView>,
    field: MetadataField,
) -> Result<Text, KafkaErrorView> {
    match headers {
        Err(reason) => Err(reason),
        Ok(map) => if map.dom().contains(header_name(field)) {
            Ok(map[header_name(field)])
        } else {
            Err(KafkaErrorView::MissingMetadata(field))
        },
    }
}

/// Reads one piece of metadata from headers.
pub fn metadata_from_headers(headers: &Headers, field: MetadataField) -> (res: Result<
    String,
    KafkaError,
>)
    ensures
        text_result(res) == read_metadata(Ok(headers@), field),
{
    match headers.get(header_key(field)) {
        Some(value) => Ok(value.clone()),
        None => Err(KafkaError::MissingMetadata(field)),
    }
}

/// Metadata that was written into headers reads back as it was: each of
/// the six accessors, asked of the headers that `metadata_headers` built
/// from six values, gives the value that went in.
pub proof fn lemma_metadata_round_trip(
    spec_version: Text,
    event_type: Text,
    event_source: Text,
    event_id: Text,
    event_time: Text,
    content_type: Text,
)
    ensures
        ({
            let headers = metadata_headers(
                Ok(spec_version),
                Ok(event_type),
                Ok(event_source),
                Ok(event_id),
                Ok(event_time),
                Ok(content_type),
            );
            &&& headers is Ok
            &&& read_metadata(headers, MetadataField::SpecVersion) == Ok::<Text, KafkaErrorView>(
                spec_version,
            )
            &&& read_metadata(headers, MetadataField::Type) == Ok::<Text, KafkaErrorView>(event_type)
            &&& read_metadata(headers, MetadataField::Source) == Ok::<Text, KafkaErrorView>(
                event_source,
            )
            &&& read_metadata(headers, MetadataField::Id) == Ok::<Text, KafkaErrorView>(event_id)
            &&& read_metadata(headers, MetadataField::Time) == Ok::<Text, KafkaErrorView>(event_time)
            &&& read_metadata(headers, MetadataField::ContentType) == Ok::<Text, KafkaErrorView>(
                content_type,
            )
        }),
{
    lemma_header_names_differ(MetadataField::SpecVersion, MetadataField::Type);
    lemma_header_names_differ(MetadataField::SpecVersion, MetadataField::Source);
    lemma_header_names_differ(MetadataField::SpecVersion, MetadataField::Id);
    lemma_header_names_differ(MetadataField::SpecVersion, MetadataField::Time);
    lemma_header_names_differ(MetadataField::SpecVersion, MetadataField::ContentType);
    lemma_header_names_differ(MetadataField::Type, MetadataField::Source);
    lemma_header_names_differ(MetadataField::Type, MetadataField::Id);
    lemma_header_names_differ(MetadataField::Type, MetadataField::Time);
    lemma_header_names_differ(MetadataField::Type, MetadataField::ContentType);
    lemma_header_names_differ(MetadataField::Source, MetadataField::Id);
    lemma_header_names_differ(MetadataField::Source, MetadataField::Time);
    lemma_header_names_differ(MetadataField::Source, MetadataField::ContentType);
    lemma_header_names_differ(MetadataField::Id, MetadataField::Time);
    lemma_header_names_differ(MetadataField::Id, MetadataField::ContentType);
    lemma_header_names_differ(MetadataField::Time, MetadataField::ContentType);
}

/// Headers that lack one of the six pieces of metadata name it when it
/// is asked for.
pub proof fn lemma_missing_metadata_is_named(headers: Map<Text, Text>, field: MetadataField)
    requires
        !headers.dom().contains(header_name(field)),
    ensures
        read_metadata(Ok(headers), field) == Err::<Text, KafkaErrorView>(
            KafkaErrorView::MissingMetadata(field),
        ),
{
}

/// Builds the six metadata headers from the six values.
pub fn headers_of_metadata(
    spec_version: String,
    event_type: String,
    event_source: String,
    event_id: String,
    event_time: String,
    content_type: String,
) -> (headers: Headers)
    ensures
        Ok::<Map<Text, Text>, KafkaErrorView>(headers@) == metadata_headers(
            Ok(spec_version@),
            Ok(event_type@),
            Ok(event_source@),
            Ok(event_id@),
            Ok(event_time@),
            Ok(content_type@),
        ),
{
    let mut headers = Headers::new();
    headers.insert(header_key(MetadataField::SpecVersion).to_owned(), spec_version);
    headers.insert(header_key(MetadataField::Type).to_owned(), event_type);
    headers.insert(header_key(MetadataField::Source).to_owned(), event_source);
    headers.insert(header_key(MetadataField::Id).to_owned(), event_id);
    headers.insert(header_key(MetadataField::Time).to_owned(), event_time);
    headers.insert(header_key(MetadataField::ContentType).to_owned(), content_type);
    headers
}

/// A message that describes itself: besides the four parts of an
/// envelope it answers for each piece of event metadata.
pub trait CloudEvent: KafkaMessage {
    spec fn spec_version_spec(&self) -> Result<Text, KafkaErrorView>;

    spec fn event_type_spec(&self) -> Result<Text, KafkaErrorView>;

    spec fn event_source_spec(&self) -> Result<Text, KafkaErrorView>;

    spec fn event_id_spec(&self) -> Result<Text, KafkaErrorView>;

    spec fn event_time_spec(&self) -> Result<Text, KafkaErrorView>;

    spec fn event_content_type_spec(&self) -> Result<Text, KafkaErrorView>;

    fn spec_version(&self) -> (res: Result<String, KafkaError>)
        ensures
            text_result(res) == self.spec_version_spec(),
    ;

    fn event_type(&self) -> (res: Result<String, KafkaError>)
        ensures
            text_result(res) == self.event_type_spec(),
    ;

    fn event_source(&self) -> (res: Result<String, KafkaError>)
        ensures
            text_result(res) == self.event_source_spec(),
    ;

    fn event_id(&self) -> (res: Result<String, KafkaError>)
        ensures
            text_result(res) == self.event_id_spec(),
    ;

    fn event_time(&self) -> (res: Result<String, KafkaError>)
        ensures
            text_result(res) == self.event_time_spec(),
    ;

    fn event_content_type(&self) -> (res: Result<String, KafkaError>)
        ensures
            text_result(res) == self.event_content_type_spec(),
    ;

    /// The six metadata headers of this event; the first accessor that
    /// fails decides the outcome.
    fn cloud_event_headers(&self) -> (res: Result<Headers, KafkaError>)
        ensures
            headers_result(res) == metadata_headers(
                self.spec_version_spec(),
                self.event_type_spec(),
                self.event_source_spec(),
                self.event_id_spec(),
                self.event_time_spec(),
                self.event_content_type_spec(),
            ),
    {
        let spec_version = self.spec_version()?;
        let event_type = self.event_type()?;
        let event_source = self.event_source()?;
        let event_id = self.event_id()?;
        let event_time = self.event_time()?;
        let content_type = self.event_content_type()?;
        Ok(
            headers_of_metadata(
                spec_version,
                event_type,
                event_source,
                event_id,
                event_time,
                content_type,
            ),
        )
    }
}

/// An event that can be rebuilt from an incoming one.
pub trait DeserializeFrom<InputEvent: CloudEvent>: Sized {
    /// Whether `res` is what rebuilding from `event` gives.
    spec fn deserialized(event: &InputEvent, res: Result<Self, KafkaError>) -> bool;

    /// Rebuilds the event. An incoming event without a readable payload
    /// cannot be rebuilt, and fails as its payload does.
    fn deserialize_from(event: &InputEvent) -> (res: Result<Self, KafkaError>)
        ensures
            Self::deserialized(event, res),
            event.payload_spec() matches Err(reason) ==> res matches Err(error) && error@ == reason,
    ;
}

/// Any incoming event can be taken as the plain envelope that it is.
impl<InputEvent: CloudEvent> DeserializeFrom<InputEvent> for Envelope {
    open spec fn deserialized(event: &InputEvent, res: Result<Envelope, KafkaError>) -> bool {
        envelope_result(res) == envelope_of(
            event.payload_spec(),
            event.key_spec(),
            event.topic_spec(),
            event.headers_spec(),
        )
    }

    fn deserialize_from(event: &InputEvent) -> (res: Result<Envelope, KafkaError>) {
        Envelope::resolve(event)
    }
}

} // verus!
