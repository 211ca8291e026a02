//! A unique-id server backed by a 128-bit xorshift pseudo-random generator.
//! The generator state is seeded once, from plain values the caller samples
//! at init, and every generate request is answered with the current state
//! before one xorshift round advances it.

use vstd::prelude::*;
use crate::message::{Message, next_id};
use crate::node::{NodeError, NodeInfo};

verus! {

/// Payloads handled by this unique-id server.
pub enum Payload {
    /// Request one new id.
    Generate,
    /// Reply carrying the generated id.
    GenerateOk { id: u128 },
}

/// One round of a 128-bit xorshift generator.
pub open spec fn xorshift_round(s: u128) -> u128 {
    let a = s ^ (s << 31);
    let b = a ^ (a >> 11);
    b ^ (b << 63)
}

/// A node of the unique-id service cluster.
pub struct UUIDNode {
    /// Name of this node.
    id: String,
    /// Internal generator state.
    state: u128,
}

/// The contract of one dispatch: a generate request with an id is answered
/// by exactly one correlated reply carrying the current generator state,
/// and the state advances one round; a generate request without an id is a
/// protocol violation; a message whose payload did not decode (it is
/// absent) is a framing error; a reply payload is ignored and changes
/// nothing.
pub open spec fn uuid_step_post(
    pre: UUIDNode,
    post: UUIDNode,
    msg: Message<Payload>,
    c0: u32,
    c1: u32,
    r: Result<Vec<Message<Payload>>, NodeError>,
) -> bool {
    match msg.body.payload {
        Some(Payload::Generate) => {
            if msg.body.id is None {
                &&& (r matches Err(e) && e == NodeError::Protocol)
                &&& post == pre
                &&& c1 == c0
            } else {
                &&& (r matches Ok(out) && {
                    &&& out@.len() == 1
                    &&& out@[0].src == msg.dst
                    &&& out@[0].dst == msg.src
                    &&& out@[0].body.reply_id == msg.body.id
                    &&& out@[0].body.id == Some(c0)
                    &&& out@[0].body.payload == Some(Payload::GenerateOk { id: pre.state_val() })
                })
                &&& post.state_val() == xorshift_round(pre.state_val())
                &&& post.node_id() == pre.node_id()
                &&& c1 == next_id(c0)
            }
        },
        Some(Payload::GenerateOk { .. }) => {
            &&& (r matches Ok(out) && out@.len() == 0)
            &&& post == pre
            &&& c1 == c0
        },
        None => {
            &&& (r matches Err(e) && e == NodeError::Framing)
            &&& post == pre
            &&& c1 == c0
        },
    }
}

impl UUIDNode {
    /// The current generator state.
    pub closed spec fn state_val(&self) -> u128 {
        self.state
    }

    /// The name of this node.
    pub closed spec fn node_id(&self) -> String {
        self.id
    }

    /// Create a node named by the init identity, with the generator seeded
    /// from a value the caller sampled.
    pub fn from_init(init: &NodeInfo, seed: u128) -> (node: Self)
        ensures
            node.node_id() == init.id,
            node.state_val() == seed,
    {
        UUIDNode { id: init.id.clone(), state: seed }
    }

    /// Return the current pseudo-random value and advance the generator by
    /// one xorshift round.
    pub fn next_rng(&mut self) -> (r: u128)
        ensures
            r == old(self).state_val(),
            final(self).state_val() == xorshift_round(old(self).state_val()),
            final(self).node_id() == old(self).node_id(),
    {
        let ret = self.state;
        self.state = self.state ^ (self.state << 31);
        self.state = self.state ^ (self.state >> 11);
        self.state = self.state ^ (self.state << 63);
        ret
    }

    /// Handle one inbound envelope.
    pub fn step(&mut self, msg: Message<Payload>, counter: &mut u32) -> (r: Result<
        Vec<Message<Payload>>,
        NodeError,
    >)
        ensures
            uuid_step_post(*old(self), *final(self), msg, *old(counter), *final(counter), r),
    {
        match &msg.body.payload {
            Some(Payload::Generate) => {
                if msg.body.id.is_none() {
                    return Err(NodeError::Protocol);
                }
                let id = self.next_rng();
                let reply = msg.into_reply(Payload::GenerateOk { id }, counter);
                let mut out: Vec<Message<Payload>> = Vec::new();
                out.push(reply);
                Ok(out)
            },
            Some(Payload::GenerateOk { .. }) => Ok(Vec::new()),
            None => Err(NodeError::Framing),
        }
    }
}

} // verus!
