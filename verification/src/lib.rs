//! A minimal distributed-node runtime for a cluster of peer processes that
//! exchange line-delimited messages, together with the services that run on
//! it: a gossip-based broadcast engine, an echo service and two
//! unique-id-generation services.
//!
//! The library holds the verified protocol logic: envelope construction and
//! reply correlation, the one-time init handshake, each service's state
//! machine, and the rendering of outbound envelopes as JSON lines. Reading
//! input, sampling clocks and parsing inbound lines happen outside the
//! library, which otherwise works on plain values only.

pub mod echo;
pub mod message;
pub mod node;
pub mod services;
pub mod uuid;
pub mod wire;
