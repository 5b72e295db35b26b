//! Self-describing events: an envelope with metadata in its headers.

pub mod cloud_event;
pub mod event_record;
