//! The settings of the broker client's consumer.

use vstd::prelude::*;
use rdkafka::ClientConfig;
use crate::client_config::{
    client_config_entries, client_config_new, client_config_set, no_parameters,
};
use crate::messages::kafka_message::Text;

verus! {

/// The parameters of a consumer in group `consumer_group_id` for the
/// brokers at `bootstrap_servers`: the end of a partition is no event,
/// and a session ends after six seconds of silence.
pub open spec fn consumer_settings(consumer_group_id: Text, bootstrap_servers: Text) -> Map<
    Text,
    Text,
> {
    no_parameters().insert("group.id"@, consumer_group_id).insert(
        "bootstrap.servers"@,
        bootstrap_servers,
    ).insert("enable.partition.eof"@, "false"@).insert("session.timeout.ms"@, "6000"@)
}

/// The configuration from which the consumer is created.
pub fn consumer_config(consumer_group_id: &str, bootstrap_servers: &str) -> (config: ClientConfig)
    ensures
        client_config_entries(config) == consumer_settings(consumer_group_id@, bootstrap_servers@),
{
    let mut config = client_config_new();
    client_config_set(&mut config, "group.id", consumer_group_id);
    client_config_set(&mut config, "bootstrap.servers", bootstrap_servers);
    client_config_set(&mut config, "enable.partition.eof", "false");
    client_config_set(&mut config, "session.timeout.ms", "6000");
    config
}

} // verus!
