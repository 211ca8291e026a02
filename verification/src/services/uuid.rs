//! The unique-id service: answers every generate request with an id built
//! from one wall-clock sample and one cycle-counter sample. Two nodes
//! collide only if they read the same cycle count in the same second,
//! which cannot happen on one machine and is improbable across machines.

use vstd::prelude::*;
use crate::message::{Message, next_id};
use crate::node::{Env, Node, NodeError, NodeInfo};

verus! {

/// Payloads of the unique-id service.
pub enum Payload {
    /// Request one new unique id.
    Generate,
    /// Reply carrying the generated id.
    GenerateOk(Uuid),
}

/// Data returned to generate requests.
pub struct Uuid {
    /// The generated id.
    pub id: u128,
}

/// The unique-id service state: there is none; each id is a pure function
/// of the environment sample taken for the dispatch.
pub struct UuidNode;

/// A unique id composed from one environment sample: the wall-clock
/// seconds in the high 64 bits, the cycle-counter sample in the low 64.
pub open spec fn uuid_of(clock_s: u64, tsc: u64) -> u128 {
    ((clock_s as u128) << 64) | (tsc as u128)
}

/// The contract of one dispatch: a generate request with an id is answered
/// by exactly one correlated reply carrying the id composed from the
/// environment sample; a generate request without an id is a protocol
/// violation; a message whose payload did not decode (it is absent) is a
/// framing error; a reply payload is ignored.
pub open spec fn uuid_handle_post(
    msg: Message<Payload>,
    env: Env,
    c0: u32,
    c1: u32,
    r: Result<Vec<Message<Payload>>, NodeError>,
) -> bool {
    match msg.body.payload {
        Some(Payload::Generate) => {
            if msg.body.id is None {
                &&& (r matches Err(e) && e == NodeError::Protocol)
                &&& c1 == c0
            } else {
                &&& (r matches Ok(out) && {
                    &&& out@.len() == 1
                    &&& out@[0].src == msg.dst
                    &&& out@[0].dst == msg.src
                    &&& out@[0].body.reply_id == msg.body.id
                    &&& out@[0].body.id == Some(c0)
                    &&& (out@[0].body.payload matches Some(Payload::GenerateOk(u)) && u.id
                        == uuid_of(env.clock_s, env.tsc))
                })
                &&& c1 == next_id(c0)
            }
        },
        Some(Payload::GenerateOk(_)) => {
            &&& (r matches Ok(out) && out@.len() == 0)
            &&& c1 == c0
        },
        None => {
            &&& (r matches Err(e) && e == NodeError::Framing)
            &&& c1 == c0
        },
    }
}

impl UuidNode {
    /// Compose a unique id from one wall-clock sample and one
    /// cycle-counter sample.
    pub fn uuid(clock_s: u64, tsc: u64) -> (r: u128)
        ensures
            r == uuid_of(clock_s, tsc),
    {
        ((clock_s as u128) << 64) | (tsc as u128)
    }
}

impl Node<Payload> for UuidNode {
    open spec fn init_req(init: NodeInfo, env: Env) -> bool {
        true
    }

    open spec fn init_post(init: NodeInfo, env: Env, node: Self) -> bool {
        true
    }

    open spec fn handle_req(pre: Self, env: Env) -> bool {
        true
    }

    open spec fn handle_post(
        pre: Self,
        post: Self,
        msg: Message<Payload>,
        env: Env,
        c0: u32,
        c1: u32,
        r: Result<Vec<Message<Payload>>, NodeError>,
    ) -> bool {
        uuid_handle_post(msg, env, c0, c1, r)
    }

    fn from_init(init: &NodeInfo, env: &Env) -> (node: Self) {
        UuidNode
    }

    fn handle(&mut self, msg: Message<Payload>, env: &Env, counter: &mut u32) -> (r: Result<
        Vec<Message<Payload>>,
        NodeError,
    >) {
        match &msg.body.payload {
            Some(Payload::Generate) => {
                if msg.body.id.is_none() {
                    return Err(NodeError::Protocol);
                }
                let id = UuidNode::uuid(env.clock_s, env.tsc);
                let reply = msg.into_reply(Payload::GenerateOk(Uuid { id }), counter);
                let mut out: Vec<Message<Payload>> = Vec::new();
                out.push(reply);
                Ok(out)
            },
            Some(Payload::GenerateOk(_)) => Ok(Vec::new()),
            None => Err(NodeError::Framing),
        }
    }
}

} // verus!
