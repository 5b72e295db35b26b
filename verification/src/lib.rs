//! Typed event streaming on top of a partitioned log broker: message
//! envelopes, cloud-event metadata, ordered handler dispatch, and the
//! decisions of the consumer loop, the producer and the topic administrator.

pub mod admins;
pub mod client_config;
pub mod consumers;
pub mod dispatchers;
pub mod handlers;
pub mod messages;
pub mod producers;
