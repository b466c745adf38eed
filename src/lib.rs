//! Endpoint configuration for a WebTransport endpoint over QUIC.
//!
//! Server and client configurations are assembled by typestate builders:
//! each stage is a distinct type, so a configuration cannot be finished
//! before its bind address and its credentials have been chosen.

pub mod client;
pub mod dns;
pub mod net;
pub mod server;
pub mod states;
pub mod time;
pub mod tls;
pub mod transport;
