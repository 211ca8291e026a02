use maelstrom_node::message::{Body, Message};
use maelstrom_node::node::{Env, Node, NodeError, NodeInfo};
use maelstrom_node::services::echo::{EchoData, EchoNode, EchoPayload};
use maelstrom_node::services::uuid::{Payload as UuidPayload, UuidNode};
use maelstrom_node::echo as echo_server;
use maelstrom_node::uuid as uuid_server;

fn env_with(clock_s: u64, tsc: u64) -> Env {
    Env { now_ms: 0, clock_s, tsc }
}

#[test]
fn echo_round_trip() {
    // {"src":"c","dest":"n1","body":{"type":"echo","msg_id":1,"echo":"hello"}}
    // yields {"src":"n1","dest":"c","body":{"type":"echo_ok","in_reply_to":1,
    // "echo":"hello"}}.
    let mut n = EchoNode;
    let mut c: u32 = 0;
    let request: Message<EchoPayload> = Message {
        src: String::from("c"),
        dst: String::from("n1"),
        body: Body {
            id: Some(1),
            reply_id: None,
            payload: Some(EchoPayload::Echo(EchoData { echo: String::from("hello") })),
        },
    };
    let out = n.handle(request, &env_with(0, 0), &mut c).unwrap();
    assert_eq!(out.len(), 1);
    assert_eq!(out[0].src, "n1");
    assert_eq!(out[0].dst, "c");
    assert_eq!(out[0].body.reply_id, Some(1));
    match &out[0].body.payload {
        Some(EchoPayload::EchoOk(d)) => assert_eq!(d.echo, "hello"),
        _ => panic!("echo must be answered by echo_ok"),
    }
}

#[test]
fn echo_ignores_replies_and_rejects_missing_id() {
    let mut n = EchoNode;
    let mut c: u32 = 0;
    let ok: Message<EchoPayload> = Message {
        src: String::from("c"),
        dst: String::from("n1"),
        body: Body {
            id: Some(1),
            reply_id: None,
            payload: Some(EchoPayload::EchoOk(EchoData { echo: String::from("x") })),
        },
    };
    assert!(n.handle(ok, &env_with(0, 0), &mut c).unwrap().is_empty());

    let no_id: Message<EchoPayload> = Message {
        src: String::from("c"),
        dst: String::from("n1"),
        body: Body {
            id: None,
            reply_id: None,
            payload: Some(EchoPayload::Echo(EchoData { echo: String::from("x") })),
        },
    };
    assert!(matches!(n.handle(no_id, &env_with(0, 0), &mut c), Err(NodeError::Protocol)));
}

#[test]
fn absent_payloads_are_framing_errors() {
    // An undecodable payload is fatal in every service.
    let mut c: u32 = 0;

    let mut e = EchoNode;
    let bad: Message<EchoPayload> = Message {
        src: String::from("c"),
        dst: String::from("n1"),
        body: Body { id: Some(1), reply_id: None, payload: None },
    };
    assert!(matches!(e.handle(bad, &env_with(0, 0), &mut c), Err(NodeError::Framing)));

    let mut u = UuidNode;
    let bad: Message<UuidPayload> = Message {
        src: String::from("c"),
        dst: String::from("n1"),
        body: Body { id: Some(1), reply_id: None, payload: None },
    };
    assert!(matches!(u.handle(bad, &env_with(0, 0), &mut c), Err(NodeError::Framing)));

    let info = NodeInfo { id: String::from("n1"), nodes: vec![] };
    let mut es = echo_server::EchoNode::from_init(&info);
    let bad: Message<echo_server::Payload> = Message {
        src: String::from("c"),
        dst: String::from("n1"),
        body: Body { id: Some(1), reply_id: None, payload: None },
    };
    assert!(matches!(es.step(bad, &mut c), Err(NodeError::Framing)));

    let mut us = uuid_server::UUIDNode::from_init(&info, 1);
    let bad: Message<uuid_server::Payload> = Message {
        src: String::from("c"),
        dst: String::from("n1"),
        body: Body { id: Some(1), reply_id: None, payload: None },
    };
    assert!(matches!(us.step(bad, &mut c), Err(NodeError::Framing)));
    assert_eq!(c, 0);
}

#[test]
fn uuid_composes_clock_and_cycles() {
    assert_eq!(UuidNode::uuid(2, 3), (2u128 << 64) | 3u128);
    assert_eq!(UuidNode::uuid(0, 0), 0);
    assert_eq!(UuidNode::uuid(u64::MAX, u64::MAX), u128::MAX);
}

#[test]
fn uuid_service_answers_generate() {
    let mut n = UuidNode;
    let mut c: u32 = 5;
    let request: Message<UuidPayload> = Message {
        src: String::from("c"),
        dst: String::from("n1"),
        body: Body { id: Some(9), reply_id: None, payload: Some(UuidPayload::Generate) },
    };
    let out = n.handle(request, &env_with(7, 11), &mut c).unwrap();
    assert_eq!(out.len(), 1);
    assert_eq!(out[0].src, "n1");
    assert_eq!(out[0].dst, "c");
    assert_eq!(out[0].body.reply_id, Some(9));
    assert_eq!(out[0].body.id, Some(5));
    match &out[0].body.payload {
        Some(UuidPayload::GenerateOk(u)) => assert_eq!(u.id, (7u128 << 64) | 11u128),
        _ => panic!("generate must be answered by generate_ok"),
    }
}

#[test]
fn echo_server_step_round_trip() {
    let info = NodeInfo { id: String::from("n1"), nodes: vec![String::from("n1")] };
    let mut n = echo_server::EchoNode::from_init(&info);
    let mut c: u32 = 0;
    let request: Message<echo_server::Payload> = Message {
        src: String::from("c"),
        dst: String::from("n1"),
        body: Body {
            id: Some(1),
            reply_id: None,
            payload: Some(echo_server::Payload::Echo { echo: String::from("hello") }),
        },
    };
    let out = n.step(request, &mut c).unwrap();
    assert_eq!(out.len(), 1);
    assert_eq!(out[0].src, "n1");
    assert_eq!(out[0].dst, "c");
    assert_eq!(out[0].body.reply_id, Some(1));
    match &out[0].body.payload {
        Some(echo_server::Payload::EchoOk { echo }) => assert_eq!(echo, "hello"),
        _ => panic!("echo must be answered by echo_ok"),
    }
}

#[test]
fn xorshift_returns_state_then_advances() {
    let info = NodeInfo { id: String::from("n1"), nodes: vec![] };
    let mut n = uuid_server::UUIDNode::from_init(&info, 1);
    let first = n.next_rng();
    assert_eq!(first, 1);
    let a = 1u128 ^ (1u128 << 31);
    let b = a ^ (a >> 11);
    let advanced = b ^ (b << 63);
    let second = n.next_rng();
    assert_eq!(second, advanced);
    assert_ne!(first, second);
}

#[test]
fn xorshift_server_answers_generate() {
    let info = NodeInfo { id: String::from("n1"), nodes: vec![] };
    let mut n = uuid_server::UUIDNode::from_init(&info, 99);
    let mut c: u32 = 0;
    let request: Message<uuid_server::Payload> = Message {
        src: String::from("c"),
        dst: String::from("n1"),
        body: Body { id: Some(4), reply_id: None, payload: Some(uuid_server::Payload::Generate) },
    };
    let out = n.step(request, &mut c).unwrap();
    assert_eq!(out.len(), 1);
    assert_eq!(out[0].body.reply_id, Some(4));
    match out[0].body.payload {
        Some(uuid_server::Payload::GenerateOk { id }) => assert_eq!(id, 99),
        _ => panic!("generate must be answered by generate_ok"),
    }
    // A second request draws a different id.
    let request: Message<uuid_server::Payload> = Message {
        src: String::from("c"),
        dst: String::from("n1"),
        body: Body { id: Some(5), reply_id: None, payload: Some(uuid_server::Payload::Generate) },
    };
    let out = n.step(request, &mut c).unwrap();
    match out[0].body.payload {
        Some(uuid_server::Payload::GenerateOk { id }) => assert_ne!(id, 99),
        _ => panic!("generate must be answered by generate_ok"),
    }
}
