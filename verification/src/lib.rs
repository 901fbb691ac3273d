//! ticklore: server-authoritative game networking over TCP.
//!
//! The server owns a `World` and ticks it at a fixed rate; each client holds a
//! `ClientView` of it, opened by a snapshot and kept current by the view events
//! that the client may see, and presents it through a `Shadow`. This crate
//! holds the model and the decisions, verified; the sockets, tasks and threads
//! that carry them out live outside it.
pub mod client;
pub mod config;
pub mod duration;
pub mod listener;
pub mod model;
pub mod session;
pub mod shared;
pub mod tick;
pub mod transport;
pub mod world_driver;

pub use config::{ClientConfig, ServerConfig};
pub use model::{
    ClientView, ConnectionWorldInput, DisconnectionWorldInput, Shadow, ShadowEvent, ShadowEventWorldInput,
    ShadowInput, TimeShadowInput, TimeWorldInput, ViewEvent, ViewEventsShadowInput, World, WorldEvent,
    WorldInput,
};
pub use tick::Tick;
