use maelstrom_node::message::{Body, Message};
use maelstrom_node::node::{init_node, Env, InitPayload, Node, NodeInfo};
use maelstrom_node::services::broadcast::{BroadcastData, BroadcastNode, Payload, TopologyData};
use maelstrom_node::services::echo::{EchoData, EchoNode, EchoPayload};
use maelstrom_node::services::uuid::{Payload as UuidPayload, Uuid, UuidNode};
use maelstrom_node::wire;

fn env_at(now_ms: u64) -> Env {
    Env { now_ms, clock_s: 0, tsc: 0 }
}

#[test]
fn init_ack_wire_line() {
    // The full framing scenario: the init input produces exactly one
    // output line, the init acknowledgment, before anything else.
    let first: Message<InitPayload> = Message {
        src: String::from("c"),
        dst: String::from("n1"),
        body: Body {
            id: Some(1),
            reply_id: None,
            payload: Some(InitPayload::Init(NodeInfo {
                id: String::from("n1"),
                nodes: vec![String::from("n1"), String::from("n2")],
            })),
        },
    };
    let mut counter: u32 = 0;
    let (_node, ack) =
        init_node::<_, BroadcastNode>(first, &env_at(0), &mut counter).expect("init");
    assert_eq!(
        wire::encode_init(&ack),
        "{\"src\":\"n1\",\"dest\":\"c\",\"body\":{\"msg_id\":0,\"in_reply_to\":1,\"type\":\"init_ok\"}}\n"
    );
}

#[test]
fn echo_reply_wire_line() {
    // Echo round trip at the framing layer: the reply correlates with the
    // request and carries the text back, on one line.
    let mut n = EchoNode;
    let mut c: u32 = 0;
    let request: Message<EchoPayload> = Message {
        src: String::from("c"),
        dst: String::from("n1"),
        body: Body {
            id: Some(1),
            reply_id: None,
            payload: Some(EchoPayload::Echo(EchoData { echo: String::from("hello") })),
        },
    };
    let out = n.handle(request, &env_at(0), &mut c).unwrap();
    assert_eq!(
        wire::encode_echo(&out[0]),
        "{\"src\":\"n1\",\"dest\":\"c\",\"body\":{\"msg_id\":0,\"in_reply_to\":1,\"type\":\"echo_ok\",\"echo\":\"hello\"}}\n"
    );
}

#[test]
fn broadcast_payload_wire_lines() {
    let msg = |p: Payload| Message {
        src: String::from("a"),
        dst: String::from("b"),
        body: Body { id: None, reply_id: None, payload: Some(p) },
    };
    assert_eq!(
        wire::encode_broadcast(&msg(Payload::Read)),
        "{\"src\":\"a\",\"dest\":\"b\",\"body\":{\"type\":\"read\"}}\n"
    );
    assert_eq!(
        wire::encode_broadcast(&msg(Payload::Broadcast(BroadcastData { message: 1000 }))),
        "{\"src\":\"a\",\"dest\":\"b\",\"body\":{\"type\":\"broadcast\",\"message\":1000}}\n"
    );
    let read_ok = Message {
        src: String::from("a"),
        dst: String::from("b"),
        body: Body {
            id: Some(7),
            reply_id: Some(3),
            payload: Some(Payload::ReadOk(maelstrom_node::services::broadcast::ReadData {
                messages: vec![5, 0, 4294967295],
            })),
        },
    };
    assert_eq!(
        wire::encode_broadcast(&read_ok),
        "{\"src\":\"a\",\"dest\":\"b\",\"body\":{\"msg_id\":7,\"in_reply_to\":3,\"type\":\"read_ok\",\"messages\":[5,0,4294967295]}}\n"
    );
    let topo = msg(Payload::Topology(TopologyData {
        topology: vec![
            (String::from("n1"), vec![String::from("n2"), String::from("n3")]),
            (String::from("n2"), vec![]),
        ],
    }));
    assert_eq!(
        wire::encode_broadcast(&topo),
        "{\"src\":\"a\",\"dest\":\"b\",\"body\":{\"type\":\"topology\",\"topology\":{\"n1\":[\"n2\",\"n3\"],\"n2\":[]}}}\n"
    );
}

#[test]
fn uuid_reply_wire_line() {
    let reply: Message<UuidPayload> = Message {
        src: String::from("n1"),
        dst: String::from("c"),
        body: Body {
            id: Some(2),
            reply_id: Some(9),
            payload: Some(UuidPayload::GenerateOk(Uuid { id: (7u128 << 64) | 11u128 })),
        },
    };
    assert_eq!(
        wire::encode_uuid(&reply),
        "{\"src\":\"n1\",\"dest\":\"c\",\"body\":{\"msg_id\":2,\"in_reply_to\":9,\"type\":\"generate_ok\",\"id\":129127208515966861323}}\n"
    );
    let _ = UuidNode;
}

#[test]
fn strings_are_escaped_on_the_wire() {
    let m: Message<EchoPayload> = Message {
        src: String::from("a\"b"),
        dst: String::from("c\\d"),
        body: Body {
            id: None,
            reply_id: None,
            payload: Some(EchoPayload::Echo(EchoData {
                echo: String::from("line\nbreak\ttab\u{1}end\u{1F600}"),
            })),
        },
    };
    assert_eq!(
        wire::encode_echo(&m),
        "{\"src\":\"a\\\"b\",\"dest\":\"c\\\\d\",\"body\":{\"type\":\"echo\",\"echo\":\"line\\nbreak\\ttab\\u0001end\u{1F600}\"}}\n"
    );
}

#[test]
fn wire_lines_match_standard_json() {
    // What the encoder writes is well-formed JSON with the intended
    // members, as an independent parser reads it.
    let m: Message<EchoPayload> = Message {
        src: String::from("n1"),
        dst: String::from("c"),
        body: Body {
            id: Some(12),
            reply_id: Some(34),
            payload: Some(EchoPayload::EchoOk(EchoData { echo: String::from("x\"\\\ny") })),
        },
    };
    let line = wire::encode_echo(&m);
    let v: serde_json::Value = serde_json::from_str(line.trim_end()).expect("valid JSON");
    assert_eq!(v["src"], "n1");
    assert_eq!(v["dest"], "c");
    assert_eq!(v["body"]["msg_id"], 12);
    assert_eq!(v["body"]["in_reply_to"], 34);
    assert_eq!(v["body"]["type"], "echo_ok");
    assert_eq!(v["body"]["echo"], "x\"\\\ny");
}
