//! The producer: what is sent for a message, and what a delivery report
//! means.

pub mod producer;
pub mod rdkafka_impl;
