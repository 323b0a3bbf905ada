use std_stupid_http::compose::ServerFunction;
use std_stupid_http::connection::ServerConfig;
use std_stupid_http::errors::{ConfigError, StdStupidError};

#[test]
fn lib_setup_server_normally() {
    let ip_address_to_use = [127, 0, 0, 1];
    let port_to_use: u16 = 9182;

    let config = ServerConfig::new(
        ServerFunction::Debug,
        Some(ip_address_to_use),
        Some(port_to_use),
        8,
        false,
    )
    .unwrap();
    assert_eq!(config.get_server_port(), 9182);
    assert_eq!(config.get_server_ip(), [127, 0, 0, 1]);
    assert_eq!(config.get_server_function(), ServerFunction::Debug);
    assert_eq!(config.thread_count(), 8);
    assert!(!config.keepalive());
}

#[test]
fn config_defaults_to_localhost_8080() {
    let config = ServerConfig::new(ServerFunction::ServeFile, None, None, 1, true).unwrap();
    assert_eq!(config.get_server_ip(), [127, 0, 0, 1]);
    assert_eq!(config.get_server_port(), 8080);
}

#[test]
fn config_rejects_multicast_address() {
    let r = ServerConfig::new(ServerFunction::Debug, Some([224, 0, 0, 1]), None, 4, true);
    assert_eq!(r, Err(StdStupidError::Configuration(ConfigError::MulticastAddress)));
}

#[test]
fn config_rejects_documentation_address() {
    for ip in [[192, 0, 2, 7], [198, 51, 100, 1], [203, 0, 113, 255]] {
        let r = ServerConfig::new(ServerFunction::Debug, Some(ip), None, 4, true);
        assert_eq!(r, Err(StdStupidError::Configuration(ConfigError::DocumentationAddress)));
    }
}

#[test]
fn config_rejects_zero_threads() {
    let r = ServerConfig::new(ServerFunction::Debug, None, None, 0, true);
    assert_eq!(r, Err(StdStupidError::Configuration(ConfigError::ZeroThreads)));
}

#[test]
fn config_rejects_proxy_mode() {
    let r = ServerConfig::new(ServerFunction::Proxy, None, None, 2, true);
    assert_eq!(r, Err(StdStupidError::Configuration(ConfigError::ProxyNotImplemented)));
}
