//! The configuration of a client.

use crate::sync::R2_PAYLOAD_LIMIT_BYTES;
use crate::text::optional_text;
use vstd::prelude::*;

verus! {

/// What `config.toml` says.
#[derive(Debug, Clone)]
pub struct Config {
    pub server_url: String,
    pub auth_token: String,
    pub client_name: Option<String>,
    pub poll_interval_ms: u64,
    pub receive_dir: String,
}

/// What a client runs with.
#[derive(Debug, Clone)]
pub struct ClientConfig {
    pub server_url: String,
    pub client_id: String,
    pub client_name: String,
    pub auth_token: String,
    pub poll_interval_ms: u64,
    pub receive_dir: String,
    pub max_payload_bytes: usize,
}

/// How often the local clipboard is polled where nothing else is configured, in milliseconds.
pub fn default_poll_interval() -> (interval_ms: u64)
    ensures
        interval_ms == 300,
{
    300
}

/// Where received files are saved where nothing else is configured.
pub fn default_receive_dir() -> (dir: String)
    ensures
        dir@ == "receive"@,
{
    "receive".to_owned()
}

/// The name under which a device is known: that of the computer, else that of the host, else a
/// name for any client.
pub open spec fn client_id_text(
    computer_name: Option<Seq<char>>,
    hostname: Option<Seq<char>>,
) -> Seq<char> {
    match (computer_name, hostname) {
        (Some(name), _) => name,
        (None, Some(name)) => name,
        (None, None) => "rustclipsync-client"@,
    }
}

/// The name under which a device is known, from what the environment says of it.
pub fn default_client_id(computer_name: Option<String>, hostname: Option<String>) -> (id: String)
    ensures
        id@ == client_id_text(optional_text(computer_name), optional_text(hostname)),
{
    match computer_name {
        Some(name) => name,
        None => match hostname {
            Some(name) => name,
            None => "rustclipsync-client".to_owned(),
        },
    }
}

/// What a client runs with, from the configuration file and the name of the device. A client
/// without a name of its own goes by the name of the device.
pub fn client_config(config: Config, client_id: String) -> (client: ClientConfig)
    ensures
        client.server_url@ == config.server_url@,
        client.client_id@ == client_id@,
        client.client_name@ == (match optional_text(config.client_name) {
            Some(name) => name,
            None => client_id@,
        }),
        client.auth_token@ == config.auth_token@,
        client.poll_interval_ms == config.poll_interval_ms,
        client.receive_dir@ == config.receive_dir@,
        client.max_payload_bytes == R2_PAYLOAD_LIMIT_BYTES,
{
    let client_name = match config.client_name {
        Some(name) => name,
        None => client_id.clone(),
    };
    ClientConfig {
        server_url: config.server_url,
        client_id,
        client_name,
        auth_token: config.auth_token,
        poll_interval_ms: config.poll_interval_ms,
        receive_dir: config.receive_dir,
        max_payload_bytes: R2_PAYLOAD_LIMIT_BYTES,
    }
}

} // verus!
