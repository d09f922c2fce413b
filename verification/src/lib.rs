//! Rendezvous and relay between two WebSocket peers.
//!
//! A host opens a channel and is issued an identifier; a client that presents
//! the identifier is paired with the host, and from then on every frame one
//! of them sends is forwarded to the other until either side goes away.
//!
//! The crate holds the decisions of that protocol: the channel's two states,
//! the registry of channels, the slots of a session, and the steps of
//! the waiting and forwarding phases. Waiting on sockets and timers is left
//! to the caller, which feeds what happened into the step functions and
//! carries out what they answer.

pub mod channel;
pub mod config;
pub mod error;
pub mod frame;
pub mod identifier;
pub mod registry;
pub mod relay;
pub mod relayer;
pub mod routes;
pub mod session;
