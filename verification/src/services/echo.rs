//! The echo service: a trivial single-hop responder with no state machine.
//! It exercises the shared framing and reply-correlation contract and
//! nothing else.

use vstd::prelude::*;
use crate::message::{Message, next_id};
use crate::node::{Env, Node, NodeError, NodeInfo};

verus! {

/// Payloads of the echo service.
pub enum EchoPayload {
    /// Request: echo this data back.
    Echo(EchoData),
    /// Reply: the same data, returned.
    EchoOk(EchoData),
}

/// The data of an echo request and its reply.
pub struct EchoData {
    /// The text to be echoed.
    pub echo: String,
}

/// The echo service state: there is none.
pub struct EchoNode;

/// The contract of one echo dispatch: an echo request with an id is
/// answered by exactly one reply that swaps source and destination,
/// correlates with the request's id, and carries the same text; an echo
/// request without an id is a protocol violation; a message whose payload
/// did not decode (it is absent) is a framing error; a reply payload is
/// ignored.
pub open spec fn echo_handle_post(
    msg: Message<EchoPayload>,
    c0: u32,
    c1: u32,
    r: Result<Vec<Message<EchoPayload>>, NodeError>,
) -> bool {
    match msg.body.payload {
        Some(EchoPayload::Echo(d)) => {
            if msg.body.id is None {
                &&& (r matches Err(e) && e == NodeError::Protocol)
                &&& c1 == c0
            } else {
                &&& (r matches Ok(out) && {
                    &&& out@.len() == 1
                    &&& out@[0].src == msg.dst
                    &&& out@[0].dst == msg.src
                    &&& out@[0].body.reply_id == msg.body.id
                    &&& out@[0].body.id == Some(c0)
                    &&& (out@[0].body.payload matches Some(EchoPayload::EchoOk(e)) && e.echo
                        == d.echo)
                })
                &&& c1 == next_id(c0)
            }
        },
        Some(EchoPayload::EchoOk(_)) => {
            &&& (r matches Ok(out) && out@.len() == 0)
            &&& c1 == c0
        },
        None => {
            &&& (r matches Err(e) && e == NodeError::Framing)
            &&& c1 == c0
        },
    }
}

impl Node<EchoPayload> for EchoNode {
    open spec fn init_req(init: NodeInfo, env: Env) -> bool {
        true
    }

    open spec fn init_post(init: NodeInfo, env: Env, node: Self) -> bool {
        true
    }

    open spec fn handle_req(pre: Self, env: Env) -> bool {
        true
    }

    open spec fn handle_post(
        pre: Self,
        post: Self,
        msg: Message<EchoPayload>,
        env: Env,
        c0: u32,
        c1: u32,
        r: Result<Vec<Message<EchoPayload>>, NodeError>,
    ) -> bool {
        echo_handle_post(msg, c0, c1, r)
    }

    fn from_init(init: &NodeInfo, env: &Env) -> (node: Self) {
        EchoNode
    }

    fn handle(&mut self, msg: Message<EchoPayload>, env: &Env, counter: &mut u32) -> (r: Result<
        Vec<Message<EchoPayload>>,
        NodeError,
    >) {
        let mut msg = msg;
        let payload = msg.body.payload.take();
        match payload {
            Some(EchoPayload::Echo(d)) => {
                if msg.body.id.is_none() {
                    return Err(NodeError::Protocol);
                }
                let reply = msg.into_reply(EchoPayload::EchoOk(EchoData { echo: d.echo }), counter);
                let mut out: Vec<Message<EchoPayload>> = Vec::new();
                out.push(reply);
                Ok(out)
            },
            Some(EchoPayload::EchoOk(_)) => Ok(Vec::new()),
            None => Err(NodeError::Framing),
        }
    }
}

} // verus!
