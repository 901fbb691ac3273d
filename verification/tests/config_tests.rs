use std::time::Duration;
use ticklore::config::{ClientConfig, ServerConfig};

#[test]
fn server_defaults() {
    let config = ServerConfig::default();
    assert_eq!(config.tick_period, Duration::from_nanos(16_666_666));
    assert_eq!(config.broadcast_capacity, 64);
}

#[test]
fn client_defaults() {
    assert_eq!(ClientConfig::default().reconnect_delay, Duration::from_secs(3));
}
