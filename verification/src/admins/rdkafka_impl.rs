//! The settings of the broker client's administrator.

use vstd::prelude::*;
use rdkafka::ClientConfig;
use crate::client_config::{
    client_config_entries, client_config_new, client_config_set, no_parameters,
};
use crate::messages::kafka_message::Text;

verus! {

/// The parameters of an administrator for the brokers at
/// `bootstrap_servers`, with the time that a request may take and the
/// time that a connection may stay idle, both in milliseconds.
pub open spec fn admin_settings(
    bootstrap_servers: Text,
    request_time_out_ms: Text,
    connection_max_idle_ms: Text,
) -> Map<Text, Text> {
    no_parameters().insert("bootstrap.servers"@, bootstrap_servers).insert(
        "request.timeout.ms"@,
        request_time_out_ms,
    ).insert("connections.max.idle.ms"@, connection_max_idle_ms)
}

/// The configuration from which the administrator is created.
pub fn admin_config(
    bootstrap_servers: &str,
    request_time_out_ms: &str,
    connection_max_idle_ms: &str,
) -> (config: ClientConfig)
    ensures
        client_config_entries(config) == admin_settings(
            bootstrap_servers@,
            request_time_out_ms@,
            connection_max_idle_ms@,
        ),
{
    let mut config = client_config_new();
    client_config_set(&mut config, "bootstrap.servers", bootstrap_servers);
    client_config_set(&mut config, "request.timeout.ms", request_time_out_ms);
    client_config_set(&mut config, "connections.max.idle.ms", connection_max_idle_ms);
    config
}

} // verus!
