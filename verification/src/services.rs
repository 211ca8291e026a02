//! The services that plug into the node runtime: the gossip-based broadcast
//! engine, a trivial echo responder and a unique-id generator.

pub mod broadcast;
pub mod echo;
pub mod uuid;
