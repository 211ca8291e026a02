//! Envelopes and reply correlation.
//!
//! A [`Message`] is one transmitted unit: a source node, a destination node
//! and a [`Body`] carrying an optional message id, an optional reply
//! correlation id, and the service payload. Replies are built by swapping
//! source and destination and correlating `reply_id` with the request's id.

use vstd::prelude::*;

verus! {

/// The process-wide message-id counter after one more id has been handed
/// out: it advances by one and wraps at the 32-bit limit, like a
/// fetch-and-add on a 32-bit counter.
pub open spec fn next_id(c: u32) -> u32 {
    if c == u32::MAX {
        0
    } else {
        (c + 1) as u32
    }
}

/// The value of the message-id counter after `k` ids have been handed out,
/// starting from `c0`.
pub open spec fn id_at(c0: u32, k: nat) -> u32
    decreases k,
{
    if k == 0 {
        c0
    } else {
        next_id(id_at(c0, (k - 1) as nat))
    }
}

/// Get a new message id that is unique for this node: the current counter
/// value is returned and the counter advances by one.
pub fn get_unique_id(counter: &mut u32) -> (r: u32)
    ensures
        r == *old(counter),
        *final(counter) == next_id(*old(counter)),
{
    let r = *counter;
    if *counter == u32::MAX {
        *counter = 0;
    } else {
        *counter = *counter + 1;
    }
    r
}

/// A message sent between nodes of the cluster.
pub struct Message<Payload> {
    /// Name of the node this message came from.
    pub src: String,
    /// Name of the node this message is addressed to.
    pub dst: String,
    /// Body and payload of the message.
    pub body: Body<Payload>,
}

/// The body of a message.
pub struct Body<Payload> {
    /// Identifier of this message, unique per sending node. Set on every
    /// outbound message; may be absent on inbound ones.
    pub id: Option<u32>,
    /// For request/response, the id of the request being answered.
    pub reply_id: Option<u32>,
    /// The service payload. Held as an option so a handler can take the
    /// payload out of a request and still turn the rest into a reply.
    pub payload: Option<Payload>,
}

impl<Payload> Message<Payload> {
    /// Create a new message carrying `payload`, stamped with a fresh id
    /// drawn from `counter`.
    pub fn new(
        src: String,
        dst: String,
        reply_id: Option<u32>,
        payload: Payload,
        counter: &mut u32,
    ) -> (r: Message<Payload>)
        ensures
            r.src == src,
            r.dst == dst,
            r.body.id == Some(*old(counter)),
            r.body.reply_id == reply_id,
            r.body.payload == Some(payload),
            *final(counter) == next_id(*old(counter)),
    {
        let id = get_unique_id(counter);
        Message { src, dst, body: Body { id: Some(id), reply_id, payload: Some(payload) } }
    }

    /// Create a reply to this message: source and destination swap, the
    /// reply correlates with this message's id, and the reply gets a fresh
    /// id of its own. Replying to a message that carries no id is a
    /// protocol violation, so such a message is ruled out here.
    pub fn into_reply<NewPayload>(self, p: NewPayload, counter: &mut u32) -> (r: Message<
        NewPayload,
    >)
        requires
            self.body.id is Some,
        ensures
            r.src == self.dst,
            r.dst == self.src,
            r.body.reply_id == self.body.id,
            r.body.id == Some(*old(counter)),
            r.body.payload == Some(p),
            *final(counter) == next_id(*old(counter)),
    {
        Message::new(self.dst, self.src, self.body.id, p, counter)
    }
}

} // verus!
