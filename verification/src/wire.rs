//! The outbound wire format: one JSON object per envelope, rendered as a
//! single line.
//!
//! Every outbound envelope is serialized here, by verified code: object
//! members in declaration order, `msg_id` and `in_reply_to` omitted when
//! absent, the payload's fields flattened beside its `type` tag, strings
//! escaped as JSON asks. The exact character sequence of each line is
//! pinned by spec functions, so what goes on the wire is provable down to
//! the byte.

use vstd::prelude::*;
use vstd::std_specs::iter::IteratorSpec;
use crate::message::Message;
use crate::node::InitPayload;
use crate::services::broadcast;
use crate::services::echo;
use crate::services::uuid;

verus! {

broadcast use vstd::string::axiom_spec_iter, vstd::string::next_postcondition;

/// The character for one digit value: `0..=9` then `a..=f`.
pub open spec fn digit(d: u8) -> char {
    if d < 10 {
        ((0x30 + d) as u8) as char
    } else {
        ((0x57 + d) as u8) as char
    }
}

/// The decimal rendering of a number, most significant digit first, no
/// leading zeros (a lone zero for zero).
pub open spec fn dec_seq(n: nat) -> Seq<char>
    decreases n,
{
    if n < 10 {
        seq![digit(n as u8)]
    } else {
        dec_seq(n / 10) + seq![digit((n % 10) as u8)]
    }
}

/// How one character appears inside a JSON string: quote and backslash are
/// escaped, the control characters with short names use them, any other
/// control character uses a four-digit escape, everything else stands as
/// itself.
pub open spec fn escape_char(c: char) -> Seq<char> {
    if c == '"' {
        seq!['\\', '"']
    } else if c == '\\' {
        seq!['\\', '\\']
    } else if c == '\u{8}' {
        seq!['\\', 'b']
    } else if c == '\t' {
        seq!['\\', 't']
    } else if c == '\n' {
        seq!['\\', 'n']
    } else if c == '\u{c}' {
        seq!['\\', 'f']
    } else if c == '\r' {
        seq!['\\', 'r']
    } else if (c as u32) < 0x20 {
        seq!['\\', 'u', '0', '0', digit(((c as u32) / 16) as u8), digit(((c as u32) % 16) as u8)]
    } else {
        seq![c]
    }
}

/// A whole character sequence escaped for JSON.
pub open spec fn escape_seq(s: Seq<char>) -> Seq<char>
    decreases s.len(),
{
    if s.len() == 0 {
        Seq::empty()
    } else {
        escape_char(s[0]) + escape_seq(s.skip(1))
    }
}

/// A JSON string: the escaped content between quotes.
pub open spec fn json_string(s: Seq<char>) -> Seq<char> {
    seq!['"'] + escape_seq(s) + seq!['"']
}

/// Escaping distributes over concatenation.
proof fn lemma_escape_concat(a: Seq<char>, b: Seq<char>)
    ensures
        escape_seq(a + b) == escape_seq(a) + escape_seq(b),
    decreases a.len(),
{
    if a.len() == 0 {
        assert(a + b =~= b);
        assert(escape_seq(a) + escape_seq(b) =~= escape_seq(b));
    } else {
        assert((a + b)[0] == a[0]);
        assert((a + b).skip(1) =~= a.skip(1) + b);
        lemma_escape_concat(a.skip(1), b);
        assert(escape_seq(a + b) =~= escape_seq(a) + escape_seq(b));
    }
}

/// Relies on String::push: appends the given character to the end of the
/// string.
#[verifier::external_body]
fn push_char(out: &mut String, c: char)
    ensures
        final(out)@ == old(out)@ + seq![c],
{
    out.push(c);
}

/// The character for one digit value.
fn digit_char(d: u8) -> (c: char)
    requires
        d < 16,
    ensures
        c == digit(d),
{
    if d < 10 {
        (0x30 + d) as char
    } else {
        (0x57 + d) as char
    }
}

/// Append the decimal rendering of a 32-bit number.
fn append_dec_u32(out: &mut String, n: u32)
    ensures
        final(out)@ == old(out)@ + dec_seq(n as nat),
    decreases n,
{
    if n >= 10 {
        proof {
            assert(n as nat / 10 < n as nat) by (nonlinear_arith)
                requires
                    n >= 10,
            ;
        }
        append_dec_u32(out, n / 10);
        push_char(out, digit_char((n % 10) as u8));
        proof {
            assert(old(out)@ + dec_seq(n as nat / 10) + seq![digit((n as nat % 10) as u8)]
                =~= old(out)@ + dec_seq(n as nat));
        }
    } else {
        push_char(out, digit_char(n as u8));
    }
}

/// Append the decimal rendering of a 128-bit number.
fn append_dec_u128(out: &mut String, n: u128)
    ensures
        final(out)@ == old(out)@ + dec_seq(n as nat),
    decreases n,
{
    if n >= 10 {
        proof {
            assert(n as nat / 10 < n as nat) by (nonlinear_arith)
                requires
                    n >= 10,
            ;
        }
        append_dec_u128(out, n / 10);
        push_char(out, digit_char((n % 10) as u8));
        proof {
            assert(old(out)@ + dec_seq(n as nat / 10) + seq![digit((n as nat % 10) as u8)]
                =~= old(out)@ + dec_seq(n as nat));
        }
    } else {
        push_char(out, digit_char(n as u8));
    }
}

/// Append a JSON string: the argument's characters escaped, in quotes.
fn append_json_string(out: &mut String, s: &str)
    ensures
        final(out)@ == old(out)@ + json_string(s@),
{
    push_char(out, '"');
    let ghost base = out@;
    let mut it = s.chars();
    let ghost mut done = Seq::<char>::empty();
    proof {
        assert(done + it.remaining() =~= s@);
        assert(escape_seq(done) =~= Seq::<char>::empty());
        assert(out@ =~= base + escape_seq(done));
    }
    loop
        invariant
            s@ == done + it.remaining(),
            out@ == base + escape_seq(done),
            it.obeys_prophetic_iter_laws(),
        ensures
            out@ == base + escape_seq(s@),
        decreases s@.len() - done.len(),
    {
        let ghost rem = it.remaining();
        match it.next() {
            Some(c) => {
                proof {
                    assert(c == rem[0]);
                    assert(rem =~= seq![c] + it.remaining());
                }
                if c == '"' {
                    push_char(out, '\\');
                    push_char(out, '"');
                } else if c == '\\' {
                    push_char(out, '\\');
                    push_char(out, '\\');
                } else if c == '\u{8}' {
                    push_char(out, '\\');
                    push_char(out, 'b');
                } else if c == '\t' {
                    push_char(out, '\\');
                    push_char(out, 't');
                } else if c == '\n' {
                    push_char(out, '\\');
                    push_char(out, 'n');
                } else if c == '\u{c}' {
                    push_char(out, '\\');
                    push_char(out, 'f');
                } else if c == '\r' {
                    push_char(out, '\\');
                    push_char(out, 'r');
                } else if (c as u32) < 0x20 {
                    push_char(out, '\\');
                    push_char(out, 'u');
                    push_char(out, '0');
                    push_char(out, '0');
                    push_char(out, digit_char(((c as u32) / 16) as u8));
                    push_char(out, digit_char(((c as u32) % 16) as u8));
                } else {
                    push_char(out, c);
                }
                proof {
                    assert(out@ =~= base + (escape_seq(done) + escape_char(c)));
                    lemma_escape_concat(done, seq![c]);
                    assert(seq![c].skip(1) =~= Seq::<char>::empty());
                    assert(escape_seq(Seq::<char>::empty()) == Seq::<char>::empty());
                    assert(escape_seq(seq![c]) =~= escape_char(c));
                    assert(done.push(c) =~= done + seq![c]);
                    done = done.push(c);
                    assert(s@ =~= done + it.remaining());
                    assert(out@ =~= base + escape_seq(done));
                }
            },
            None => {
                proof {
                    assert(rem.len() == 0);
                    assert(done =~= s@);
                }
                break ;
            },
        }
    }
    push_char(out, '"');
    proof {
        assert(old(out)@ + json_string(s@) =~= out@);
    }
}

/// A comma-separated list of decimal numbers.
pub open spec fn dec_list(ns: Seq<u32>) -> Seq<char>
    decreases ns.len(),
{
    if ns.len() == 0 {
        Seq::empty()
    } else if ns.len() == 1 {
        dec_seq(ns[0] as nat)
    } else {
        dec_seq(ns[0] as nat) + seq![','] + dec_list(ns.skip(1))
    }
}

/// Append the elements of `ns` from index `i` on, comma separated.
fn append_dec_list(out: &mut String, ns: &Vec<u32>, i: usize)
    requires
        i <= ns@.len(),
    ensures
        final(out)@ == old(out)@ + dec_list(ns@.skip(i as int)),
    decreases ns@.len() - i,
{
    proof {
        assert(ns@.skip(i as int).len() == ns@.len() - i);
    }
    if i < ns.len() {
        proof {
            assert(ns@.skip(i as int)[0] == ns@[i as int]);
            assert(ns@.skip(i as int).skip(1) =~= ns@.skip(i as int + 1));
        }
        append_dec_u32(out, ns[i]);
        if i + 1 < ns.len() {
            push_char(out, ',');
            append_dec_list(out, ns, i + 1);
            proof {
                assert(out@ =~= old(out)@ + dec_list(ns@.skip(i as int)));
            }
        }
    }
}

/// A comma-separated list of JSON strings.
pub open spec fn str_list(ss: Seq<String>) -> Seq<char>
    decreases ss.len(),
{
    if ss.len() == 0 {
        Seq::empty()
    } else if ss.len() == 1 {
        json_string(ss[0]@)
    } else {
        json_string(ss[0]@) + seq![','] + str_list(ss.skip(1))
    }
}

/// Append the elements of `ss` from index `i` on, as quoted JSON strings,
/// comma separated.
fn append_str_list(out: &mut String, ss: &Vec<String>, i: usize)
    requires
        i <= ss@.len(),
    ensures
        final(out)@ == old(out)@ + str_list(ss@.skip(i as int)),
    decreases ss@.len() - i,
{
    proof {
        assert(ss@.skip(i as int).len() == ss@.len() - i);
    }
    if i < ss.len() {
        proof {
            assert(ss@.skip(i as int)[0] == ss@[i as int]);
            assert(ss@.skip(i as int).skip(1) =~= ss@.skip(i as int + 1));
        }
        append_json_string(out, ss[i].as_str());
        if i + 1 < ss.len() {
            push_char(out, ',');
            append_str_list(out, ss, i + 1);
            proof {
                assert(out@ =~= old(out)@ + str_list(ss@.skip(i as int)));
            }
        }
    }
}

/// One topology table entry: the node's name mapped to the list of its
/// neighbors.
pub open spec fn topo_entry(e: (String, Vec<String>)) -> Seq<char> {
    json_string(e.0@) + seq![':', '['] + str_list(e.1@) + seq![']']
}

/// A comma-separated list of topology table entries.
pub open spec fn topo_list(es: Seq<(String, Vec<String>)>) -> Seq<char>
    decreases es.len(),
{
    if es.len() == 0 {
        Seq::empty()
    } else if es.len() == 1 {
        topo_entry(es[0])
    } else {
        topo_entry(es[0]) + seq![','] + topo_list(es.skip(1))
    }
}

/// Append the topology entries of `es` from index `i` on, comma separated.
fn append_topo_list(out: &mut String, es: &Vec<(String, Vec<String>)>, i: usize)
    requires
        i <= es@.len(),
    ensures
        final(out)@ == old(out)@ + topo_list(es@.skip(i as int)),
    decreases es@.len() - i,
{
    proof {
        assert(es@.skip(i as int).len() == es@.len() - i);
    }
    if i < es.len() {
        proof {
            assert(es@.skip(i as int)[0] == es@[i as int]);
            assert(es@.skip(i as int).skip(1) =~= es@.skip(i as int + 1));
        }
        append_json_string(out, es[i].0.as_str());
        push_char(out, ':');
        push_char(out, '[');
        append_str_list(out, &es[i].1, 0);
        push_char(out, ']');
        proof {
            assert(es@[i as int].1@.skip(0) =~= es@[i as int].1@);
        }
        if i + 1 < es.len() {
            push_char(out, ',');
            append_topo_list(out, es, i + 1);
        }
        proof {
            assert(out@ =~= old(out)@ + topo_list(es@.skip(i as int)));
        }
    }
}

/// The `msg_id` member of a body object.
pub open spec fn id_member(n: u32) -> Seq<char> {
    ("\"msg_id\":")@ + dec_seq(n as nat)
}

/// The `in_reply_to` member of a body object.
pub open spec fn reply_member(n: u32) -> Seq<char> {
    ("\"in_reply_to\":")@ + dec_seq(n as nat)
}

/// The members of a body object, comma separated: `msg_id` and
/// `in_reply_to` appear only when present, then the payload's members.
pub open spec fn body_inner(id: Option<u32>, rid: Option<u32>, pm: Option<Seq<char>>) -> Seq<
    char,
> {
    match (id, rid, pm) {
        (None, None, None) => Seq::empty(),
        (None, None, Some(m)) => m,
        (None, Some(r), None) => reply_member(r),
        (None, Some(r), Some(m)) => reply_member(r) + seq![','] + m,
        (Some(i), None, None) => id_member(i),
        (Some(i), None, Some(m)) => id_member(i) + seq![','] + m,
        (Some(i), Some(r), None) => id_member(i) + seq![','] + reply_member(r),
        (Some(i), Some(r), Some(m)) => id_member(i) + seq![','] + reply_member(r) + seq![','] + m,
    }
}

/// A whole envelope on the wire: one JSON object holding source,
/// destination and body, terminated by exactly one newline.
pub open spec fn envelope_line(
    src: Seq<char>,
    dst: Seq<char>,
    id: Option<u32>,
    rid: Option<u32>,
    pm: Option<Seq<char>>,
) -> Seq<char> {
    ("{\"src\":")@ + json_string(src) + (",\"dest\":")@ + json_string(dst) + (",\"body\":{")@
        + body_inner(id, rid, pm) + ("}}")@ + seq!['\n']
}

/// Append the body members for the given ids and pre-rendered payload.
fn append_body_inner(out: &mut String, id: Option<u32>, rid: Option<u32>, pm: Option<&String>)
    ensures
        final(out)@ == old(out)@ + body_inner(
            id,
            rid,
            match pm {
                Some(m) => Some(m@),
                None => None,
            },
        ),
{
    let mut first = true;
    if let Some(n) = id {
        out.append("\"msg_id\":");
        append_dec_u32(out, n);
        first = false;
    }
    if let Some(n) = rid {
        if !first {
            push_char(out, ',');
        }
        out.append("\"in_reply_to\":");
        append_dec_u32(out, n);
        first = false;
    }
    if let Some(m) = pm {
        if !first {
            push_char(out, ',');
        }
        out.append(m.as_str());
    }
    proof {
        assert(out@ =~= old(out)@ + body_inner(
            id,
            rid,
            match pm {
                Some(m) => Some(m@),
                None => None,
            },
        ));
    }
}

/// Render one whole envelope line for the given parts.
fn build_envelope(
    src: &str,
    dst: &str,
    id: Option<u32>,
    rid: Option<u32>,
    pm: Option<&String>,
) -> (line: String)
    ensures
        line@ == envelope_line(
            src@,
            dst@,
            id,
            rid,
            match pm {
                Some(m) => Some(m@),
                None => None,
            },
        ),
{
    let mut out = String::new();
    out.append("{\"src\":");
    append_json_string(&mut out, src);
    out.append(",\"dest\":");
    append_json_string(&mut out, dst);
    out.append(",\"body\":{");
    append_body_inner(&mut out, id, rid, pm);
    out.append("}}");
    push_char(&mut out, '\n');
    proof {
        assert(out@ =~= envelope_line(
            src@,
            dst@,
            id,
            rid,
            match pm {
                Some(m) => Some(m@),
                None => None,
            },
        ));
    }
    out
}

/// The payload members of a broadcast-service body: the `type` tag first,
/// then the variant's fields.
pub open spec fn broadcast_member(p: broadcast::Payload) -> Seq<char> {
    match p {
        broadcast::Payload::Read => ("\"type\":\"read\"")@,
        broadcast::Payload::ReadOk(d) => ("\"type\":\"read_ok\",\"messages\":[")@ + dec_list(
            d.messages@,
        ) + seq![']'],
        broadcast::Payload::Topology(t) => ("\"type\":\"topology\",\"topology\":{")@ + topo_list(
            t.topology@,
        ) + seq!['}'],
        broadcast::Payload::TopologyOk => ("\"type\":\"topology_ok\"")@,
        broadcast::Payload::Broadcast(d) => ("\"type\":\"broadcast\",\"message\":")@ + dec_seq(
            d.message as nat,
        ),
        broadcast::Payload::BroadcastOk => ("\"type\":\"broadcast_ok\"")@,
    }
}

fn broadcast_member_string(p: &broadcast::Payload) -> (r: String)
    ensures
        r@ == broadcast_member(*p),
{
    let mut out = String::new();
    match p {
        broadcast::Payload::Read => {
            out.append("\"type\":\"read\"");
        },
        broadcast::Payload::ReadOk(d) => {
            out.append("\"type\":\"read_ok\",\"messages\":[");
            append_dec_list(&mut out, &d.messages, 0);
            push_char(&mut out, ']');
            proof {
                assert(d.messages@.skip(0) =~= d.messages@);
            }
        },
        broadcast::Payload::Topology(t) => {
            out.append("\"type\":\"topology\",\"topology\":{");
            append_topo_list(&mut out, &t.topology, 0);
            push_char(&mut out, '}');
            proof {
                assert(t.topology@.skip(0) =~= t.topology@);
            }
        },
        broadcast::Payload::TopologyOk => {
            out.append("\"type\":\"topology_ok\"");
        },
        broadcast::Payload::Broadcast(d) => {
            out.append("\"type\":\"broadcast\",\"message\":");
            append_dec_u32(&mut out, d.message);
        },
        broadcast::Payload::BroadcastOk => {
            out.append("\"type\":\"broadcast_ok\"");
        },
    }
    proof {
        assert(out@ =~= broadcast_member(*p));
    }
    out
}

/// The payload members of an init-handshake body.
pub open spec fn init_member(p: InitPayload) -> Seq<char> {
    match p {
        InitPayload::Init(info) => ("\"type\":\"init\",\"node_id\":")@ + json_string(info.id@) + (
        ",\"node_ids\":[")@ + str_list(info.nodes@) + seq![']'],
        InitPayload::InitOk => ("\"type\":\"init_ok\"")@,
    }
}

fn init_member_string(p: &InitPayload) -> (r: String)
    ensures
        r@ == init_member(*p),
{
    let mut out = String::new();
    match p {
        InitPayload::Init(info) => {
            out.append("\"type\":\"init\",\"node_id\":");
            append_json_string(&mut out, info.id.as_str());
            out.append(",\"node_ids\":[");
            append_str_list(&mut out, &info.nodes, 0);
            push_char(&mut out, ']');
            proof {
                assert(info.nodes@.skip(0) =~= info.nodes@);
            }
        },
        InitPayload::InitOk => {
            out.append("\"type\":\"init_ok\"");
        },
    }
    proof {
        assert(out@ =~= init_member(*p));
    }
    out
}

/// The payload members of an echo-service body.
pub open spec fn echo_member(p: echo::EchoPayload) -> Seq<char> {
    match p {
        echo::EchoPayload::Echo(d) => ("\"type\":\"echo\",\"echo\":")@ + json_string(d.echo@),
        echo::EchoPayload::EchoOk(d) => ("\"type\":\"echo_ok\",\"echo\":")@ + json_string(d.echo@),
    }
}

fn echo_member_string(p: &echo::EchoPayload) -> (r: String)
    ensures
        r@ == echo_member(*p),
{
    let mut out = String::new();
    match p {
        echo::EchoPayload::Echo(d) => {
            out.append("\"type\":\"echo\",\"echo\":");
            append_json_string(&mut out, d.echo.as_str());
        },
        echo::EchoPayload::EchoOk(d) => {
            out.append("\"type\":\"echo_ok\",\"echo\":");
            append_json_string(&mut out, d.echo.as_str());
        },
    }
    proof {
        assert(out@ =~= echo_member(*p));
    }
    out
}

/// The payload members of a unique-id-service body.
pub open spec fn uuid_member(p: uuid::Payload) -> Seq<char> {
    match p {
        uuid::Payload::Generate => ("\"type\":\"generate\"")@,
        uuid::Payload::GenerateOk(u) => ("\"type\":\"generate_ok\",\"id\":")@ + dec_seq(
            u.id as nat,
        ),
    }
}

fn uuid_member_string(p: &uuid::Payload) -> (r: String)
    ensures
        r@ == uuid_member(*p),
{
    let mut out = String::new();
    match p {
        uuid::Payload::Generate => {
            out.append("\"type\":\"generate\"");
        },
        uuid::Payload::GenerateOk(u) => {
            out.append("\"type\":\"generate_ok\",\"id\":");
            append_dec_u128(&mut out, u.id);
        },
    }
    proof {
        assert(out@ =~= uuid_member(*p));
    }
    out
}

/// The wire line for one broadcast-service envelope.
pub open spec fn enc_broadcast(m: Message<broadcast::Payload>) -> Seq<char> {
    envelope_line(
        m.src@,
        m.dst@,
        m.body.id,
        m.body.reply_id,
        match m.body.payload {
            Some(p) => Some(broadcast_member(p)),
            None => None,
        },
    )
}

/// Serialize one broadcast-service envelope as its wire line.
pub fn encode_broadcast(m: &Message<broadcast::Payload>) -> (line: String)
    ensures
        line@ == enc_broadcast(*m),
{
    match &m.body.payload {
        Some(p) => {
            let member = broadcast_member_string(p);
            build_envelope(m.src.as_str(), m.dst.as_str(), m.body.id, m.body.reply_id, Some(&member))
        },
        None => build_envelope(m.src.as_str(), m.dst.as_str(), m.body.id, m.body.reply_id, None),
    }
}

/// The wire line for one init-handshake envelope.
pub open spec fn enc_init(m: Message<InitPayload>) -> Seq<char> {
    envelope_line(
        m.src@,
        m.dst@,
        m.body.id,
        m.body.reply_id,
        match m.body.payload {
            Some(p) => Some(init_member(p)),
            None => None,
        },
    )
}

/// Serialize one init-handshake envelope as its wire line.
pub fn encode_init(m: &Message<InitPayload>) -> (line: String)
    ensures
        line@ == enc_init(*m),
{
    match &m.body.payload {
        Some(p) => {
            let member = init_member_string(p);
            build_envelope(m.src.as_str(), m.dst.as_str(), m.body.id, m.body.reply_id, Some(&member))
        },
        None => build_envelope(m.src.as_str(), m.dst.as_str(), m.body.id, m.body.reply_id, None),
    }
}

/// The wire line for one echo-service envelope.
pub open spec fn enc_echo(m: Message<echo::EchoPayload>) -> Seq<char> {
    envelope_line(
        m.src@,
        m.dst@,
        m.body.id,
        m.body.reply_id,
        match m.body.payload {
            Some(p) => Some(echo_member(p)),
            None => None,
        },
    )
}

/// Serialize one echo-service envelope as its wire line.
pub fn encode_echo(m: &Message<echo::EchoPayload>) -> (line: String)
    ensures
        line@ == enc_echo(*m),
{
    match &m.body.payload {
        Some(p) => {
            let member = echo_member_string(p);
            build_envelope(m.src.as_str(), m.dst.as_str(), m.body.id, m.body.reply_id, Some(&member))
        },
        None => build_envelope(m.src.as_str(), m.dst.as_str(), m.body.id, m.body.reply_id, None),
    }
}

/// The wire line for one unique-id-service envelope.
pub open spec fn enc_uuid(m: Message<uuid::Payload>) -> Seq<char> {
    envelope_line(
        m.src@,
        m.dst@,
        m.body.id,
        m.body.reply_id,
        match m.body.payload {
            Some(p) => Some(uuid_member(p)),
            None => None,
        },
    )
}

/// Serialize one unique-id-service envelope as its wire line.
pub fn encode_uuid(m: &Message<uuid::Payload>) -> (line: String)
    ensures
        line@ == enc_uuid(*m),
{
    match &m.body.payload {
        Some(p) => {
            let member = uuid_member_string(p);
            build_envelope(m.src.as_str(), m.dst.as_str(), m.body.id, m.body.reply_id, Some(&member))
        },
        None => build_envelope(m.src.as_str(), m.dst.as_str(), m.body.id, m.body.reply_id, None),
    }
}

} // verus!