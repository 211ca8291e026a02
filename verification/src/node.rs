//! The node runtime: init handshake and the service interface.
//!
//! A node starts in an awaiting-init state. The first inbound message must
//! carry an init payload naming this node and its peers; the node then
//! constructs the active service's state and answers with an
//! init-acknowledgment before anything else, correlated with the init
//! message's id. After that, every inbound envelope is handed to the
//! service's `handle`, which mutates the service state and yields the
//! envelopes to write out, in order. Reading lines, writing lines and
//! sampling clocks happen outside the library; each dispatch receives one
//! [`Env`] sample of the ambient environment.

use vstd::prelude::*;
use crate::message::{Message, next_id};

verus! {

/// One sample of the ambient environment, taken by the caller right before
/// a dispatch. The library never reads clocks itself; it is handed these
/// plain values.
#[derive(Clone, Copy)]
pub struct Env {
    /// Milliseconds of a monotonic clock; drives the anti-entropy timer.
    pub now_ms: u64,
    /// Seconds since the epoch of a wall clock; feeds unique-id generation.
    pub clock_s: u64,
    /// A cycle-counter sample; feeds unique-id generation.
    pub tsc: u64,
}

/// What can go wrong while running a node. Every variant is fatal: the
/// process terminates rather than skipping a message.
#[derive(Clone, Copy, Debug, PartialEq, Eq, Structural)]
pub enum NodeError {
    /// A line was not one well-formed envelope of the expected shape.
    Framing,
    /// The init contract was broken: the first message was not a valid
    /// init, or a reply was attempted against a message lacking an id.
    Protocol,
    /// A service-specific invariant was violated during dispatch.
    Handler,
}

/// Messages exchanged during the one-time initialization handshake.
pub enum InitPayload {
    /// Sent by the cluster driver to a fresh node.
    Init(NodeInfo),
    /// Sent back by the node once its service state exists.
    InitOk,
}

/// The identity a node is assigned at init: its own name and the names of
/// every node in the cluster, in the order the driver listed them.
pub struct NodeInfo {
    /// The name of the node receiving the init message.
    pub id: String,
    /// All nodes in the cluster, including the recipient.
    pub nodes: Vec<String>,
}

/// The capability interface a service plugs into the runtime: construction
/// from the init identity, and handling of one inbound envelope at a time.
/// Each implementation fixes its own contract through the four spec
/// functions.
pub trait Node<Payload>: Sized {
    /// What the environment must satisfy before the service can be built.
    spec fn init_req(init: NodeInfo, env: Env) -> bool;

    /// What holds of a freshly built service state.
    spec fn init_post(init: NodeInfo, env: Env, node: Self) -> bool;

    /// What must hold before a dispatch.
    spec fn handle_req(pre: Self, env: Env) -> bool;

    /// How one dispatch relates the old state, the new state, the inbound
    /// message, the id counter and the outbound envelopes.
    spec fn handle_post(
        pre: Self,
        post: Self,
        msg: Message<Payload>,
        env: Env,
        c0: u32,
        c1: u32,
        r: Result<Vec<Message<Payload>>, NodeError>,
    ) -> bool;

    /// Build the service state from the init identity.
    fn from_init(init: &NodeInfo, env: &Env) -> (node: Self)
        requires
            Self::init_req(*init, *env),
        ensures
            Self::init_post(*init, *env, node),
    ;

    /// Handle one inbound envelope; the returned messages are written out
    /// by the caller in order, each one flushed before the next line is
    /// read.
    fn handle(&mut self, msg: Message<Payload>, env: &Env, counter: &mut u32) -> (r: Result<
        Vec<Message<Payload>>,
        NodeError,
    >)
        requires
            Self::handle_req(*old(self), *env),
        ensures
            Self::handle_post(
                *old(self),
                *final(self),
                msg,
                *env,
                *old(counter),
                *final(counter),
                r,
            ),
    ;
}

/// Perform the init handshake on the first inbound message: if it is a
/// well-formed init request, build the service state and produce the
/// acknowledgment to write before any other output; anything else is a
/// protocol violation and the node must terminate.
pub fn init_node<Payload, N: Node<Payload>>(
    first: Message<InitPayload>,
    env: &Env,
    counter: &mut u32,
) -> (r: Result<(N, Message<InitPayload>), NodeError>)
    requires
        first.body.payload matches Some(InitPayload::Init(info)) ==> N::init_req(info, *env),
    ensures
        r matches Ok(pair) ==> {
            &&& first.body.payload matches Some(InitPayload::Init(info)) && N::init_post(
                info,
                *env,
                pair.0,
            )
            &&& first.body.id is Some
            &&& pair.1.src == first.dst
            &&& pair.1.dst == first.src
            &&& pair.1.body.reply_id == first.body.id
            &&& pair.1.body.id == Some(*old(counter))
            &&& pair.1.body.payload == Some(InitPayload::InitOk)
            &&& *final(counter) == next_id(*old(counter))
        },
        r is Err ==> (r matches Err(e) && e == NodeError::Protocol) && *final(counter) == *old(
            counter,
        ),
        (r is Ok) <==> (first.body.payload matches Some(InitPayload::Init(_))
            && first.body.id is Some),
{
    if first.body.id.is_none() {
        return Err(NodeError::Protocol);
    }
    match &first.body.payload {
        Some(InitPayload::Init(info)) => {
            let node = N::from_init(info, env);
            let reply = first.into_reply(InitPayload::InitOk, counter);
            Ok((node, reply))
        },
        _ => Err(NodeError::Protocol),
    }
}

} // verus!
