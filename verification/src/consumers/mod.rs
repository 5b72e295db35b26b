//! The consumer: what to do next after each thing that happens to a
//! subscription.

pub mod consumer;
pub mod rdkafka_impl;
