//! Settings of the broker client, as the key/value configuration that the
//! client library builds its producers, consumers and administrators from.

use vstd::prelude::*;
use rdkafka::ClientConfig;
use crate::messages::kafka_message::Text;

verus! {

/// The broker client's configuration.
#[verifier::external_type_specification]
#[verifier::external_body]
pub struct ExClientConfig(ClientConfig);

/// The parameters that a configuration holds, each under its name.
pub uninterp spec fn client_config_entries(config: ClientConfig) -> Map<Text, Text>;

/// No parameter at all.
pub open spec fn no_parameters() -> Map<Text, Text> {
    Map::empty()
}

/// Calls `ClientConfig::new`: a configuration without any parameter.
#[verifier::external_body]
pub(crate) fn client_config_new() -> (config: ClientConfig)
    ensures
        client_config_entries(config) == no_parameters(),
{
    ClientConfig::new()
}

/// Calls `ClientConfig::set`: the parameter gets this value, in place of
/// the one that it had, if any.
#[verifier::external_body]
pub(crate) fn client_config_set(config: &mut ClientConfig, key: &str, value: &str)
    ensures
        client_config_entries(*final(config)) == client_config_entries(*old(config)).insert(
            key@,
            value@,
        ),
{
    config.set(key, value);
}

} // verus!
