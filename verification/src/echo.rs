//! An echo server over the shared envelope framing: every echo request is
//! answered by one reply carrying the same text back. It keeps the name it
//! was assigned at init and nothing else.

use vstd::prelude::*;
use crate::message::{Message, next_id};
use crate::node::{NodeError, NodeInfo};

verus! {

/// Payloads handled by the echo server.
pub enum Payload {
    /// Request: echo this text back.
    Echo { echo: String },
    /// Reply: the same text, returned.
    EchoOk { echo: String },
}

/// A node of the echo service cluster.
pub struct EchoNode {
    /// Name of this node.
    id: String,
}

/// The contract of one dispatch: an echo request with an id is answered by
/// exactly one reply that swaps source and destination, correlates with
/// the request's id and carries the same text; an echo request without an
/// id is a protocol violation; a message whose payload did not decode (it
/// is absent) is a framing error; a reply payload is ignored.
pub open spec fn echo_step_post(
    msg: Message<Payload>,
    c0: u32,
    c1: u32,
    r: Result<Vec<Message<Payload>>, NodeError>,
) -> bool {
    match msg.body.payload {
        Some(Payload::Echo { echo }) => {
            if msg.body.id is None {
                &&& (r matches Err(e) && e == NodeError::Protocol)
                &&& c1 == c0
            } else {
                &&& (r matches Ok(out) && {
                    &&& out@.len() == 1
                    &&& out@[0].src == msg.dst
                    &&& out@[0].dst == msg.src
                    &&& out@[0].body.reply_id == msg.body.id
                    &&& out@[0].body.id == Some(c0)
                    &&& (out@[0].body.payload matches Some(Payload::EchoOk { echo: e }) && e
                        == echo)
                })
                &&& c1 == next_id(c0)
            }
        },
        Some(Payload::EchoOk { .. }) => {
            &&& (r matches Ok(out) && out@.len() == 0)
            &&& c1 == c0
        },
        None => {
            &&& (r matches Err(e) && e == NodeError::Framing)
            &&& c1 == c0
        },
    }
}

impl EchoNode {
    /// The name of this node.
    pub closed spec fn node_id(&self) -> String {
        self.id
    }

    /// Create a node named by the init identity.
    pub fn from_init(init: &NodeInfo) -> (node: Self)
        ensures
            node.node_id() == init.id,
    {
        EchoNode { id: init.id.clone() }
    }

    /// Handle one inbound envelope.
    pub fn step(&mut self, msg: Message<Payload>, counter: &mut u32) -> (r: Result<
        Vec<Message<Payload>>,
        NodeError,
    >)
        ensures
            echo_step_post(msg, *old(counter), *final(counter), r),
            *final(self) == *old(self),
    {
        let mut msg = msg;
        let payload = msg.body.payload.take();
        match payload {
            Some(Payload::Echo { echo }) => {
                if msg.body.id.is_none() {
                    return Err(NodeError::Protocol);
                }
                let reply = msg.into_reply(Payload::EchoOk { echo }, counter);
                let mut out: Vec<Message<Payload>> = Vec::new();
                out.push(reply);
                Ok(out)
            },
            Some(Payload::EchoOk { .. }) => Ok(Vec::new()),
            None => Err(NodeError::Framing),
        }
    }
}

} // verus!
