use maelstrom_node::message::{Body, Message};
use maelstrom_node::node::{init_node, Env, InitPayload, NodeError, NodeInfo};
use maelstrom_node::services::broadcast::BroadcastNode;

fn env_at(now_ms: u64) -> Env {
    Env { now_ms, clock_s: 0, tsc: 0 }
}

#[test]
fn init_handshake_produces_one_ack_first() {
    // {"src":"c","dest":"n1","body":{"type":"init","msg_id":1,"node_id":"n1",
    //  "node_ids":["n1","n2"]}} must yield exactly one reply
    // {"src":"n1","dest":"c","body":{"type":"init_ok","in_reply_to":1}}
    // before anything else is written.
    let first: Message<InitPayload> = Message {
        src: String::from("c"),
        dst: String::from("n1"),
        body: Body {
            id: Some(1),
            reply_id: None,
            payload: Some(InitPayload::Init(NodeInfo {
                id: String::from("n1"),
                nodes: vec![String::from("n1"), String::from("n2")],
            })),
        },
    };
    let mut counter: u32 = 0;
    let r = init_node::<_, BroadcastNode>(first, &env_at(0), &mut counter);
    let (node, ack) = r.expect("a well-formed init must succeed");
    assert_eq!(node.name(), "n1");
    assert_eq!(ack.src, "n1");
    assert_eq!(ack.dst, "c");
    assert_eq!(ack.body.reply_id, Some(1));
    assert!(matches!(ack.body.payload, Some(InitPayload::InitOk)));
    // The ack consumed the first fresh id of the process.
    assert_eq!(ack.body.id, Some(0));
    assert_eq!(counter, 1);
}

#[test]
fn first_message_must_be_init() {
    let first: Message<InitPayload> = Message {
        src: String::from("c"),
        dst: String::from("n1"),
        body: Body { id: Some(1), reply_id: None, payload: Some(InitPayload::InitOk) },
    };
    let mut counter: u32 = 0;
    let r = init_node::<_, BroadcastNode>(first, &env_at(0), &mut counter);
    assert!(matches!(r, Err(NodeError::Protocol)));
    assert_eq!(counter, 0);
}

#[test]
fn init_without_id_is_rejected() {
    let first: Message<InitPayload> = Message {
        src: String::from("c"),
        dst: String::from("n1"),
        body: Body {
            id: None,
            reply_id: None,
            payload: Some(InitPayload::Init(NodeInfo {
                id: String::from("n1"),
                nodes: vec![String::from("n1")],
            })),
        },
    };
    let mut counter: u32 = 0;
    let r = init_node::<_, BroadcastNode>(first, &env_at(0), &mut counter);
    assert!(matches!(r, Err(NodeError::Protocol)));
}

#[test]
fn fresh_broadcast_node_state() {
    let first: Message<InitPayload> = Message {
        src: String::from("c"),
        dst: String::from("n1"),
        body: Body {
            id: Some(7),
            reply_id: None,
            payload: Some(InitPayload::Init(NodeInfo {
                id: String::from("n1"),
                nodes: vec![String::from("n1"), String::from("n2")],
            })),
        },
    };
    let mut counter: u32 = 0;
    let r = init_node::<_, BroadcastNode>(first, &env_at(100), &mut counter);
    let (node, _ack) = r.expect("init");
    assert!(node.neighbor_names().is_empty());
    assert!(node.seen_values().is_empty());
    // The anti-entropy timer is armed one interval after init.
    assert_eq!(node.deadline(), 400);
}
