//! The settings of the broker client's producer.

use vstd::prelude::*;
use rdkafka::ClientConfig;
use crate::client_config::{
    client_config_entries, client_config_new, client_config_set, no_parameters,
};
use crate::messages::kafka_message::Text;

verus! {

/// The parameters of a producer for the brokers at `bootstrap_servers`:
/// every replica must acknowledge a message, and a message that could not
/// be delivered within five seconds is given up.
pub open spec fn producer_settings(bootstrap_servers: Text) -> Map<Text, Text> {
    no_parameters().insert("request.required.acks"@, "all"@).insert(
        "bootstrap.servers"@,
        bootstrap_servers,
    ).insert("message.timeout.ms"@, "5000"@)
}

/// The configuration from which the producer is created.
pub fn producer_config(bootstrap_servers: &str) -> (config: ClientConfig)
    ensures
        client_config_entries(config) == producer_settings(bootstrap_servers@),
{
    let mut config = client_config_new();
    client_config_set(&mut config, "request.required.acks", "all");
    client_config_set(&mut config, "bootstrap.servers", bootstrap_servers);
    client_config_set(&mut config, "message.timeout.ms", "5000");
    config
}

} // verus!
