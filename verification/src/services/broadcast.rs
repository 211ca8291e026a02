//! The gossip-based broadcast engine.
//!
//! The engine propagates opaque integer values, originating at any node, to
//! every node reachable through the externally assigned neighbor graph. It
//! tolerates message loss without retransmission storms: a duplicate
//! delivery is acknowledged but never re-forwarded, and a periodic
//! anti-entropy round asks every neighbor for its full state, which repairs
//! values lost in transit. Delivery is eventual: no order is imposed across
//! distinct values and no latency is bounded.
//!
//! The anti-entropy check runs at the top of every dispatch, before the
//! payload is inspected, so a node with no inbound traffic never gossips.

use vstd::prelude::*;
use crate::message::{Message, id_at, next_id};
use crate::node::{Env, Node, NodeError, NodeInfo};

verus! {

/// How often a node gossips with its neighbors, in milliseconds. Whenever a
/// message is handled after this much time has passed since the timer was
/// armed, the node re-reads its neighbors' full state.
pub const GOSSIP_TIME_MS: u64 = 300;

/// All message payloads of the broadcast service.
pub enum Payload {
    /// Ask a node for every value it has seen.
    Read,
    /// Answer to `Read`: a snapshot of the full seen set.
    ReadOk(ReadData),
    /// Assign every node its neighbors.
    Topology(TopologyData),
    /// Acknowledge a topology assignment.
    TopologyOk,
    /// Deliver one broadcast value.
    Broadcast(BroadcastData),
    /// Acknowledge a broadcast delivery.
    BroadcastOk,
}

/// Data sent to a node requesting a read.
pub struct ReadData {
    /// The values the sender had seen when it built this reply.
    pub messages: Vec<u32>,
}

/// Data sent to a node to define its neighbors.
pub struct TopologyData {
    /// Table of nodes and their neighbors.
    pub topology: Vec<(String, Vec<String>)>,
}

/// Data sent in a broadcast.
#[derive(Clone, Copy)]
pub struct BroadcastData {
    /// The value being flooded through the cluster.
    pub message: u32,
}

/// The broadcast service state.
pub struct BroadcastNode {
    /// Name of this node.
    id: String,
    /// Current neighbors; every forwarded broadcast and every gossip read
    /// goes to each of them. Replaced wholesale by a topology message.
    topology: Vec<String>,
    /// The values this node has observed, in observation order, each held
    /// once. Used to deduplicate, so flooding stays bounded.
    seen: Vec<u32>,
    /// Deadline of the anti-entropy timer, in milliseconds.
    gossip_timer: u64,
}

impl BroadcastNode {
    /// The name of this node.
    pub closed spec fn node_id(&self) -> String {
        self.id
    }

    /// The current neighbors, in order.
    pub closed spec fn neighbors(&self) -> Seq<String> {
        self.topology@
    }

    /// The values observed so far, in observation order.
    pub closed spec fn seen_seq(&self) -> Seq<u32> {
        self.seen@
    }

    /// The set of values observed so far.
    pub open spec fn seen_set(&self) -> Set<u32> {
        self.seen_seq().to_set()
    }

    /// The deadline of the anti-entropy timer.
    pub closed spec fn timer(&self) -> u64 {
        self.gossip_timer
    }

    /// Well-formedness: the seen store holds each value once.
    pub open spec fn wf(&self) -> bool {
        self.seen_seq().no_duplicates()
    }

    /// The name of this node, as a fresh string.
    pub fn name(&self) -> (r: String)
        ensures
            r == self.node_id(),
    {
        self.id.clone()
    }

    /// The current neighbors, in order.
    pub fn neighbor_names(&self) -> (r: Vec<String>)
        ensures
            r@ == self.neighbors(),
    {
        let r = self.topology.clone();
        proof {
            assert(r@ =~= self.topology@);
        }
        r
    }

    /// The values observed so far, in observation order.
    pub fn seen_values(&self) -> (r: Vec<u32>)
        ensures
            r@ == self.seen_seq(),
    {
        let r = self.seen.clone();
        proof {
            assert(r@ =~= self.seen@);
        }
        r
    }

    /// The deadline of the anti-entropy timer, in milliseconds.
    pub fn deadline(&self) -> (r: u64)
        ensures
            r == self.timer(),
    {
        self.gossip_timer
    }
}

/// Whether an inbound payload obliges the node to reply.
pub open spec fn needs_reply(p: Option<Payload>) -> bool {
    ||| p matches Some(Payload::Read)
    ||| p matches Some(Payload::Topology(_))
    ||| p matches Some(Payload::Broadcast(_))
}

/// The values an inbound payload delivers into the seen set: a broadcast
/// delivers its one value, a gossip reply delivers its whole snapshot, and
/// every other payload delivers nothing.
pub open spec fn delivered_values(p: Option<Payload>) -> Set<u32> {
    match p {
        Some(Payload::Broadcast(d)) => Set::empty().insert(d.message),
        Some(Payload::ReadOk(d)) => d.messages@.to_set(),
        _ => Set::empty(),
    }
}

/// The seen set after one payload is processed.
pub open spec fn seen_step(s: Set<u32>, p: Option<Payload>) -> Set<u32> {
    s + delivered_values(p)
}

/// Whether a node whose seen set is `s` forwards an incoming broadcast to
/// its neighbors: only a value not seen before is flooded on.
pub open spec fn forwards_broadcast(s: Set<u32>, d: BroadcastData) -> bool {
    !s.contains(d.message)
}

/// `r` answers `req`: source and destination swap, the reply correlates
/// with the request's id and carries the fresh id `id`.
pub open spec fn is_reply_to(r: Message<Payload>, req: Message<Payload>, id: u32) -> bool {
    &&& r.src == req.dst
    &&& r.dst == req.src
    &&& r.body.reply_id == req.body.id
    &&& r.body.id == Some(id)
}

/// `m` is a fresh outbound message from `src` to `dst` with id `id` and no
/// reply correlation.
pub open spec fn is_push_msg(m: Message<Payload>, src: String, dst: String, id: u32) -> bool {
    &&& m.src == src
    &&& m.dst == dst
    &&& m.body.id == Some(id)
    &&& m.body.reply_id is None
}

/// `out` is one anti-entropy round: a `Read` request to every neighbor of
/// `node`, in neighbor order, with ids counted up from `c0`.
pub open spec fn read_burst(node: BroadcastNode, c0: u32, out: Seq<Message<Payload>>) -> bool {
    &&& out.len() == node.neighbors().len()
    &&& forall|i: int|
        0 <= i < out.len() ==> is_push_msg(
            #[trigger] out[i],
            node.node_id(),
            node.neighbors()[i],
            id_at(c0, i as nat),
        ) && out[i].body.payload == Some(Payload::Read)
}

/// `out` floods the broadcast value `d` to every neighbor of `node`, in
/// neighbor order, with ids counted up from `c0`.
pub open spec fn fwd_burst(
    node: BroadcastNode,
    d: BroadcastData,
    c0: u32,
    out: Seq<Message<Payload>>,
) -> bool {
    &&& out.len() == node.neighbors().len()
    &&& forall|i: int|
        0 <= i < out.len() ==> is_push_msg(
            #[trigger] out[i],
            node.node_id(),
            node.neighbors()[i],
            id_at(c0, i as nat),
        ) && (out[i].body.payload matches Some(Payload::Broadcast(b)) && b.message == d.message)
}

/// The first topology entry keyed by `id`, if any.
pub open spec fn topo_find(entries: Seq<(String, Vec<String>)>, id: Seq<char>) -> Option<
    Vec<String>,
>
    decreases entries.len(),
{
    if entries.len() == 0 {
        None
    } else if entries[0].0@ == id {
        Some(entries[0].1)
    } else {
        topo_find(entries.skip(1), id)
    }
}

/// How the payload dispatch relates the state before it (`pre`, already
/// past the anti-entropy check, which touches neither seen values nor
/// neighbors), the state after it (`post`), the inbound message, the id
/// counter and the emitted messages.
pub open spec fn dispatch_post(
    pre: BroadcastNode,
    post: BroadcastNode,
    msg: Message<Payload>,
    c0: u32,
    c1: u32,
    out: Seq<Message<Payload>>,
) -> bool {
    match msg.body.payload {
        Some(Payload::ReadOk(d)) => {
            &&& out.len() == 0
            &&& post.seen_set() == pre.seen_set() + d.messages@.to_set()
            &&& post.neighbors() == pre.neighbors()
            &&& c1 == c0
        },
        Some(Payload::Read) => {
            &&& out.len() == 1
            &&& is_reply_to(out[0], msg, c0)
            &&& (out[0].body.payload matches Some(Payload::ReadOk(d)) && d.messages@
                == post.seen_seq())
            &&& post.seen_seq() == pre.seen_seq()
            &&& post.neighbors() == pre.neighbors()
            &&& c1 == id_at(c0, 1)
        },
        Some(Payload::Topology(t)) => {
            &&& out.len() == 1
            &&& is_reply_to(out[0], msg, c0)
            &&& out[0].body.payload == Some(Payload::TopologyOk)
            &&& post.seen_seq() == pre.seen_seq()
            &&& post.neighbors() == (match topo_find(t.topology@, pre.node_id()@) {
                Some(v) => v@,
                None => pre.neighbors(),
            })
            &&& c1 == id_at(c0, 1)
        },
        Some(Payload::Broadcast(d)) => {
            &&& out.len() >= 1
            &&& is_reply_to(out[0], msg, c0)
            &&& out[0].body.payload == Some(Payload::BroadcastOk)
            &&& post.neighbors() == pre.neighbors()
            &&& if forwards_broadcast(pre.seen_set(), d) {
                &&& post.seen_seq() == pre.seen_seq().push(d.message)
                &&& fwd_burst(pre, d, id_at(c0, 1), out.skip(1))
                &&& c1 == id_at(c0, (1 + pre.neighbors().len()) as nat)
            } else {
                &&& out.len() == 1
                &&& post.seen_seq() == pre.seen_seq()
                &&& c1 == id_at(c0, 1)
            }
        },
        _ => {
            &&& out.len() == 0
            &&& post.seen_seq() == pre.seen_seq()
            &&& post.neighbors() == pre.neighbors()
            &&& c1 == c0
        },
    }
}

/// The full contract of one dispatch: a message whose payload did not
/// decode (it is absent) is a framing error, and a reply-needing request
/// without an id is a protocol violation — both fatal and detected before
/// any state changes; otherwise the anti-entropy check runs first
/// (emitting a read burst and re-arming the timer if the deadline passed)
/// and the payload dispatch follows, its messages appended after the
/// burst.
pub open spec fn broadcast_handle_post(
    pre: BroadcastNode,
    post: BroadcastNode,
    msg: Message<Payload>,
    env: Env,
    c0: u32,
    c1: u32,
    r: Result<Vec<Message<Payload>>, NodeError>,
) -> bool {
    if msg.body.payload is None {
        &&& (r matches Err(e) && e == NodeError::Framing)
        &&& post == pre
        &&& c1 == c0
    } else if needs_reply(msg.body.payload) && msg.body.id is None {
        &&& (r matches Err(e) && e == NodeError::Protocol)
        &&& post == pre
        &&& c1 == c0
    } else {
        let fired = env.now_ms >= pre.timer();
        let g = if fired {
            pre.neighbors().len() as int
        } else {
            0
        };
        &&& (r matches Ok(out) && {
            &&& out@.len() >= g
            &&& (fired ==> read_burst(pre, c0, out@.take(g)))
            &&& dispatch_post(pre, post, msg, id_at(c0, g as nat), c1, out@.skip(g))
        })
        &&& (fired ==> post.timer() == env.now_ms + GOSSIP_TIME_MS)
        &&& (!fired ==> post.timer() == pre.timer())
        &&& post.node_id() == pre.node_id()
        &&& post.seen_set() == seen_step(pre.seen_set(), msg.body.payload)
        &&& post.wf()
    }
}

/// Counting the id counter up `a + b` times is counting it up `a` times
/// and then `b` more.
proof fn lemma_id_at_add(c0: u32, a: nat, b: nat)
    ensures
        id_at(c0, a + b) == id_at(id_at(c0, a), b),
    decreases b,
{
    if b != 0 {
        lemma_id_at_add(c0, a, (b - 1) as nat);
        assert(a + b - 1 == a + (b - 1) as nat);
    }
}

/// Pushing a value onto a sequence adds exactly that value to the set of
/// its elements.
proof fn lemma_to_set_push(s: Seq<u32>, v: u32)
    ensures
        s.push(v).to_set() == s.to_set().insert(v),
{
    let s1 = s.push(v);
    assert forall|x: u32| s1.contains(x) implies s.to_set().insert(v).contains(x) by {
        let k = choose|k: int| 0 <= k < s1.len() && s1[k] == x;
        if k < s.len() {
            assert(s[k] == x);
        }
    }
    assert forall|x: u32| s.to_set().insert(v).contains(x) implies s1.contains(x) by {
        if s.contains(x) {
            let k = choose|k: int| 0 <= k < s.len() && s[k] == x;
            assert(s1[k] == x);
        } else {
            assert(s1[s.len() as int] == v);
        }
    }
    assert(s1.to_set() =~= s.to_set().insert(v));
}

impl BroadcastNode {
    /// Whether `v` has been observed already.
    fn contains_seen(&self, v: u32) -> (r: bool)
        ensures
            r == self.seen_set().contains(v),
    {
        let mut i: usize = 0;
        while i < self.seen.len()
            invariant
                i <= self.seen.len(),
                forall|j: int| 0 <= j < i ==> self.seen@[j] != v,
            decreases self.seen.len() - i,
        {
            if self.seen[i] == v {
                assert(self.seen@.contains(v));
                return true;
            }
            i = i + 1;
        }
        assert(!self.seen@.contains(v));
        false
    }

    /// Record `v` as observed; reports whether it was new.
    fn insert_seen(&mut self, v: u32) -> (added: bool)
        requires
            old(self).wf(),
        ensures
            final(self).wf(),
            added == !old(self).seen_set().contains(v),
            added ==> final(self).seen_seq() == old(self).seen_seq().push(v),
            !added ==> final(self).seen_seq() == old(self).seen_seq(),
            final(self).seen_set() == old(self).seen_set().insert(v),
            final(self).node_id() == old(self).node_id(),
            final(self).neighbors() == old(self).neighbors(),
            final(self).timer() == old(self).timer(),
    {
        if self.contains_seen(v) {
            proof {
                assert(old(self).seen_set().insert(v) =~= old(self).seen_set());
            }
            false
        } else {
            let ghost s0 = self.seen@;
            self.seen.push(v);
            proof {
                lemma_to_set_push(s0, v);
                assert forall|i: int, j: int|
                    0 <= i < j < self.seen@.len() implies self.seen@[i] != self.seen@[j] by {
                    if j == s0.len() {
                        assert(self.seen@[i] == s0[i]);
                        assert(!s0.contains(v));
                    }
                }
            }
            true
        }
    }

    /// Union a gossip snapshot into the seen set; nothing is ever removed.
    fn merge_values(&mut self, values: &Vec<u32>)
        requires
            old(self).wf(),
        ensures
            final(self).wf(),
            final(self).seen_set() == old(self).seen_set() + values@.to_set(),
            final(self).node_id() == old(self).node_id(),
            final(self).neighbors() == old(self).neighbors(),
            final(self).timer() == old(self).timer(),
    {
        let mut i: usize = 0;
        while i < values.len()
            invariant
                i <= values.len(),
                self.wf(),
                self.seen_set() == old(self).seen_set() + values@.take(i as int).to_set(),
                self.node_id() == old(self).node_id(),
                self.neighbors() == old(self).neighbors(),
                self.timer() == old(self).timer(),
            decreases values.len() - i,
        {
            let v = values[i];
            let ghost prev = self.seen_set();
            let _ = self.insert_seen(v);
            proof {
                let t = values@.take(i as int);
                assert(values@.take(i + 1 as int) =~= t.push(v));
                lemma_to_set_push(t, v);
                assert((old(self).seen_set() + t.to_set()).insert(v) =~= old(self).seen_set() + t.to_set().insert(v));
            }
            i = i + 1;
        }
        proof {
            assert(values@.take(values@.len() as int) =~= values@);
        }
    }

    /// If the anti-entropy deadline has passed, emit a `Read` request to
    /// every neighbor and re-arm the timer; otherwise do nothing. This is
    /// the self-healing mechanism that recovers broadcast values lost in
    /// transit.
    pub fn gossip(&mut self, env: &Env, counter: &mut u32) -> (out: Vec<Message<Payload>>)
        requires
            old(self).wf(),
            env.now_ms + GOSSIP_TIME_MS <= u64::MAX,
        ensures
            final(self).node_id() == old(self).node_id(),
            final(self).neighbors() == old(self).neighbors(),
            final(self).seen_seq() == old(self).seen_seq(),
            final(self).wf(),
            env.now_ms >= old(self).timer() ==> {
                &&& read_burst(*old(self), *old(counter), out@)
                &&& final(self).timer() == env.now_ms + GOSSIP_TIME_MS
                &&& *final(counter) == id_at(*old(counter), out@.len() as nat)
            },
            env.now_ms < old(self).timer() ==> {
                &&& out@.len() == 0
                &&& final(self).timer() == old(self).timer()
                &&& *final(counter) == *old(counter)
            },
    {
        if env.now_ms < self.gossip_timer {
            return Vec::new();
        }
        let ghost c0 = *counter;
        let mut out: Vec<Message<Payload>> = Vec::new();
        let mut i: usize = 0;
        while i < self.topology.len()
            invariant
                i <= self.topology.len(),
                out@.len() == i,
                *counter == id_at(c0, i as nat),
                forall|j: int|
                    0 <= j < i ==> is_push_msg(
                        #[trigger] out@[j],
                        self.id,
                        self.topology@[j],
                        id_at(c0, j as nat),
                    ) && out@[j].body.payload == Some(Payload::Read),
            decreases self.topology.len() - i,
        {
            let m = Message::new(
                self.id.clone(),
                self.topology[i].clone(),
                None,
                Payload::Read,
                counter,
            );
            out.push(m);
            i = i + 1;
        }
        self.gossip_timer = env.now_ms + GOSSIP_TIME_MS;
        out
    }

    /// Find the entry for `id` in a topology assignment: the index of the
    /// assignment's first entry keyed by this node's name, if any.
    fn topo_index(entries: &Vec<(String, Vec<String>)>, id: &String) -> (r: Option<usize>)
        ensures
            match r {
                Some(i) => {
                    &&& i < entries@.len()
                    &&& topo_find(entries@, id@) == Some(entries@[i as int].1)
                },
                None => topo_find(entries@, id@) is None,
            },
    {
        let ghost all = entries@;
        proof {
            assert(all.skip(0) =~= all);
        }
        let mut i: usize = 0;
        while i < entries.len()
            invariant
                i <= all.len(),
                entries@ == all,
                topo_find(all, id@) == topo_find(all.skip(i as int), id@),
            decreases all.len() - i,
        {
            if entries[i].0 == *id {
                proof {
                    assert(all.skip(i as int)[0] == all[i as int]);
                    assert(all[i as int].0@ == id@);
                    assert(topo_find(all.skip(i as int), id@) == Some(all.skip(i as int)[0].1));
                }
                return Some(i);
            }
            proof {
                assert(all.skip(i as int)[0] == all[i as int]);
                assert(all.skip(i as int).skip(1) =~= all.skip(i as int + 1));
            }
            i = i + 1;
        }
        proof {
            assert(all.skip(i as int).len() == 0);
        }
        None
    }
}

impl Node<Payload> for BroadcastNode {
    open spec fn init_req(init: NodeInfo, env: Env) -> bool {
        env.now_ms + GOSSIP_TIME_MS <= u64::MAX
    }

    open spec fn init_post(init: NodeInfo, env: Env, node: Self) -> bool {
        &&& node.node_id() == init.id
        &&& node.neighbors() == Seq::<String>::empty()
        &&& node.seen_seq() == Seq::<u32>::empty()
        &&& node.timer() == env.now_ms + GOSSIP_TIME_MS
        &&& node.wf()
    }

    open spec fn handle_req(pre: Self, env: Env) -> bool {
        &&& pre.wf()
        &&& env.now_ms + GOSSIP_TIME_MS <= u64::MAX
    }

    open spec fn handle_post(
        pre: Self,
        post: Self,
        msg: Message<Payload>,
        env: Env,
        c0: u32,
        c1: u32,
        r: Result<Vec<Message<Payload>>, NodeError>,
    ) -> bool {
        broadcast_handle_post(pre, post, msg, env, c0, c1, r)
    }

    fn from_init(init: &NodeInfo, env: &Env) -> (node: Self) {
        BroadcastNode {
            id: init.id.clone(),
            topology: Vec::new(),
            seen: Vec::new(),
            gossip_timer: env.now_ms + GOSSIP_TIME_MS,
        }
    }

    fn handle(&mut self, msg: Message<Payload>, env: &Env, counter: &mut u32) -> (r: Result<
        Vec<Message<Payload>>,
        NodeError,
    >) {
        if msg.body.payload.is_none() {
            return Err(NodeError::Framing);
        }
        let needs = match &msg.body.payload {
            Some(Payload::Read) => true,
            Some(Payload::Topology(_)) => true,
            Some(Payload::Broadcast(_)) => true,
            _ => false,
        };
        if needs && msg.body.id.is_none() {
            return Err(NodeError::Protocol);
        }

        let ghost pre = *self;
        let ghost c0 = *counter;
        let mut out = self.gossip(env, counter);
        let ghost out0 = out@;
        let ghost g = out@.len() as int;
        let ghost cg = *counter;
        let ghost mid = *self;

        let mut msg = msg;
        let ghost msg0 = msg;
        let payload = msg.body.payload.take();
        match payload {
            Some(Payload::ReadOk(d)) => {
                self.merge_values(&d.messages);
                proof {
                    assert(out@.skip(g) =~= Seq::<Message<Payload>>::empty());
                    assert(out@.take(g) =~= out0);
                }
            },
            Some(Payload::Read) => {
                let data = ReadData { messages: self.seen.clone() };
                proof {
                    assert(data.messages@ =~= self.seen@);
                }
                let reply = msg.into_reply(Payload::ReadOk(data), counter);
                out.push(reply);
                proof {
                    assert(out@.skip(g) =~= seq![reply]);
                    assert(out@.take(g) =~= out0);
                    assert(id_at(cg, 0) == cg);
                    assert(id_at(cg, 1) == next_id(cg));
                }
            },
            Some(Payload::Topology(d)) => {
                let mut d = d;
                let found = Self::topo_index(&d.topology, &self.id);
                match found {
                    Some(i) => {
                        let entry = d.topology.remove(i);
                        self.topology = entry.1;
                    },
                    None => {},
                }
                let reply = msg.into_reply(Payload::TopologyOk, counter);
                out.push(reply);
                proof {
                    assert(out@.skip(g) =~= seq![reply]);
                    assert(out@.take(g) =~= out0);
                    assert(id_at(cg, 0) == cg);
                    assert(id_at(cg, 1) == next_id(cg));
                }
            },
            Some(Payload::Broadcast(d)) => {
                let reply = msg.into_reply(Payload::BroadcastOk, counter);
                out.push(reply);
                let added = self.insert_seen(d.message);
                if added {
                    let ghost outb = out@;
                    let ghost cf = *counter;
                    let mut i: usize = 0;
                    while i < self.topology.len()
                        invariant
                            i <= self.topology.len(),
                            out@.len() == outb.len() + i,
                            out@.take(outb.len() as int) =~= outb,
                            *counter == id_at(cf, i as nat),
                            forall|j: int|
                                0 <= j < i ==> is_push_msg(
                                    #[trigger] out@[outb.len() + j],
                                    self.id,
                                    self.topology@[j],
                                    id_at(cf, j as nat),
                                ) && (out@[outb.len() + j].body.payload matches Some(
                                    Payload::Broadcast(b),
                                ) && b.message == d.message),
                        decreases self.topology.len() - i,
                    {
                        let m = Message::new(
                            self.id.clone(),
                            self.topology[i].clone(),
                            None,
                            Payload::Broadcast(BroadcastData { message: d.message }),
                            counter,
                        );
                        out.push(m);
                        i = i + 1;
                    }
                    proof {
                        assert(out@.take(g) =~= out0);
                        assert(outb[g] == reply);
                        assert(out@[g] == reply);
                        assert(out@.skip(g)[0] == reply);
                        assert(id_at(cg, 0) == cg);
                        assert(id_at(cg, 1) == next_id(cg));
                        assert(out@.skip(g).skip(1) =~= out@.skip(g + 1));
                        assert forall|k: int| 0 <= k < out@.skip(g + 1).len() implies is_push_msg(
                            #[trigger] out@.skip(g + 1)[k],
                            mid.node_id(),
                            mid.neighbors()[k],
                            id_at(id_at(cg, 1), k as nat),
                        ) && (out@.skip(g + 1)[k].body.payload matches Some(Payload::Broadcast(b))
                            && b.message == d.message) by {
                            assert(out@.skip(g + 1)[k] == out@[outb.len() + k]);
                            assert(is_push_msg(
                                out@[outb.len() + k],
                                self.id,
                                self.topology@[k],
                                id_at(cf, k as nat),
                            ));
                        }
                        assert(fwd_burst(mid, d, id_at(cg, 1), out@.skip(g + 1)));
                        lemma_id_at_add(cg, 1, mid.neighbors().len());
                        lemma_to_set_push(mid.seen_seq(), d.message);
                        assert(self.seen_set() =~= seen_step(pre.seen_set(), msg0.body.payload));
                    }
                } else {
                    proof {
                        assert(out@.take(g) =~= out0);
                        assert(out@.skip(g) =~= seq![reply]);
                        assert(id_at(cg, 0) == cg);
                        assert(id_at(cg, 1) == next_id(cg));
                        assert(self.seen_set() =~= seen_step(pre.seen_set(), msg0.body.payload));
                    }
                }
            },
            Some(Payload::TopologyOk) | Some(Payload::BroadcastOk) => {
                proof {
                    assert(out@.skip(g) =~= Seq::<Message<Payload>>::empty());
                    assert(out@.take(g) =~= out0);
                }
            },
            None => {
                return Err(NodeError::Framing);
            },
        }
        proof {
            assert(self.seen_set() =~= seen_step(pre.seen_set(), msg0.body.payload));
            let fired = env.now_ms >= pre.timer();
            assert(id_at(c0, 0 as nat) == c0);
            assert(cg == id_at(c0, g as nat));
            assert(fired ==> read_burst(pre, c0, out@.take(g)));
            assert(dispatch_post(pre, *self, msg0, cg, *counter, out@.skip(g)));
        }
        Ok(out)
    }
}

/// The seen set after a whole sequence of payloads is processed in order,
/// starting from `s`.
pub open spec fn seen_after(s: Set<u32>, ps: Seq<Option<Payload>>) -> Set<u32>
    decreases ps.len(),
{
    if ps.len() == 0 {
        s
    } else {
        seen_after(seen_step(s, ps[0]), ps.skip(1))
    }
}

/// Every value delivered by a sequence of payloads.
pub open spec fn delivered_all(ps: Seq<Option<Payload>>) -> Set<u32>
    decreases ps.len(),
{
    if ps.len() == 0 {
        Set::empty()
    } else {
        delivered_values(ps[0]) + delivered_all(ps.skip(1))
    }
}

/// For every sequence of payloads delivered to a node, the seen set after
/// processing equals the starting set united with the set of all distinct
/// values delivered directly or merged via gossip.
pub proof fn lemma_seen_accumulates(s: Set<u32>, ps: Seq<Option<Payload>>)
    ensures
        seen_after(s, ps) == s + delivered_all(ps),
    decreases ps.len(),
{
    if ps.len() == 0 {
        assert(s + delivered_all(ps) =~= s);
    } else {
        lemma_seen_accumulates(seen_step(s, ps[0]), ps.skip(1));
        assert(s + delivered_all(ps) =~= seen_step(s, ps[0]) + delivered_all(ps.skip(1)));
    }
}

/// A node that starts with nothing seen ends up with exactly the values
/// that were ever delivered to it.
pub proof fn lemma_fresh_node_seen(ps: Seq<Option<Payload>>)
    ensures
        seen_after(Set::empty(), ps) == delivered_all(ps),
{
    lemma_seen_accumulates(Set::empty(), ps);
    assert(Set::empty() + delivered_all(ps) =~= delivered_all(ps));
}

/// Idempotence of delivery: processing `Broadcast{v}` twice leaves the seen
/// set exactly as processing it once does, and the second delivery is never
/// forwarded to the neighbors (while both are acknowledged, which the
/// dispatch contract states unconditionally).
pub proof fn lemma_broadcast_idempotent(s: Set<u32>, d: BroadcastData)
    ensures
        seen_step(seen_step(s, Some(Payload::Broadcast(d))), Some(Payload::Broadcast(d)))
            == seen_step(s, Some(Payload::Broadcast(d))),
        !forwards_broadcast(seen_step(s, Some(Payload::Broadcast(d))), d),
{
    assert(seen_step(seen_step(s, Some(Payload::Broadcast(d))), Some(Payload::Broadcast(d))) =~= seen_step(
        s,
        Some(Payload::Broadcast(d)),
    ));
    assert(seen_step(s, Some(Payload::Broadcast(d))).contains(d.message));
}

} // verus!
