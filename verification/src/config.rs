//! The settings of the server and of the client, with their defaults.
use crate::duration::{duration_from_nanos, duration_from_secs, duration_nanos, nanos_per_sec};
use std::time::Duration;
use vstd::prelude::*;

verus! {

/// The ticks that the server runs each second by default.
pub const DEFAULT_TICK_RATE: u64 = 60;

/// The ticks that a connection may fall behind by default before it is dropped.
pub const DEFAULT_BROADCAST_CAPACITY: usize = 64;

/// The seconds that a client waits between connection attempts by default.
pub const DEFAULT_RECONNECT_SECS: u64 = 3;

/// How the server runs.
#[derive(Clone, Debug)]
pub struct ServerConfig {
    /// The time between two ticks of the world.
    pub tick_period: Duration,
    /// How many ticks a connection may fall behind before it is dropped.
    pub broadcast_capacity: usize,
}

impl Default for ServerConfig {
    /// Sixty ticks a second, and room for a connection to fall 64 ticks behind.
    fn default() -> (config: Self)
        ensures
            duration_nanos(config.tick_period) == nanos_per_sec() / (DEFAULT_TICK_RATE as nat),
            config.broadcast_capacity == DEFAULT_BROADCAST_CAPACITY,
    {
        ServerConfig {
            tick_period: duration_from_nanos(1_000_000_000 / DEFAULT_TICK_RATE),
            broadcast_capacity: DEFAULT_BROADCAST_CAPACITY,
        }
    }
}

/// How the client runs.
#[derive(Clone, Debug)]
pub struct ClientConfig {
    /// The time between two connection attempts.
    pub reconnect_delay: Duration,
}

impl Default for ClientConfig {
    /// Three seconds between connection attempts.
    fn default() -> (config: Self)
        ensures
            duration_nanos(config.reconnect_delay) == DEFAULT_RECONNECT_SECS * nanos_per_sec(),
    {
        ClientConfig { reconnect_delay: duration_from_secs(DEFAULT_RECONNECT_SECS) }
    }
}

} // verus!
