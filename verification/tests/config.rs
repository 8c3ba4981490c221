use rustclipsync::config::{
    client_config, default_client_id, default_poll_interval, default_receive_dir, Config,
};
use rustclipsync::sync::R2_PAYLOAD_LIMIT_BYTES;

fn file(client_name: Option<&str>) -> Config {
    Config {
        server_url: "https://relay.example".to_string(),
        auth_token: "secret".to_string(),
        client_name: client_name.map(str::to_string),
        poll_interval_ms: default_poll_interval(),
        receive_dir: default_receive_dir(),
    }
}

#[test]
fn defaults_are_the_documented_ones() {
    assert_eq!(default_poll_interval(), 300);
    assert_eq!(default_receive_dir(), "receive");
}

#[test]
fn computer_name_comes_before_hostname() {
    let computer = || Some("RYZEN".to_string());
    let host = || Some("laptop".to_string());
    assert_eq!(default_client_id(computer(), host()), "RYZEN");
    assert_eq!(default_client_id(None, host()), "laptop");
    assert_eq!(default_client_id(computer(), None), "RYZEN");
    assert_eq!(default_client_id(None, None), "rustclipsync-client");
}

#[test]
fn client_name_defaults_to_client_id() {
    let unnamed = client_config(file(None), "RYZEN".to_string());
    assert_eq!(unnamed.client_id, "RYZEN");
    assert_eq!(unnamed.client_name, "RYZEN");
    let named = client_config(file(Some("my-desktop")), "RYZEN".to_string());
    assert_eq!(named.client_id, "RYZEN");
    assert_eq!(named.client_name, "my-desktop");
}

#[test]
fn client_config_takes_over_the_file() {
    let config = client_config(file(None), "RYZEN".to_string());
    assert_eq!(config.server_url, "https://relay.example");
    assert_eq!(config.auth_token, "secret");
    assert_eq!(config.poll_interval_ms, 300);
    assert_eq!(config.receive_dir, "receive");
    assert_eq!(config.max_payload_bytes, R2_PAYLOAD_LIMIT_BYTES);
}
