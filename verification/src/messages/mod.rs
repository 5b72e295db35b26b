//! Message envelopes and the cloud-event metadata carried in their headers.

pub mod cloud_events;
pub mod headers;
pub mod kafka_message;
pub mod rdkafka_impl;
