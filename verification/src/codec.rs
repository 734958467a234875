//! Wire encoding of event envelopes: a fixed-shape JSON object with the
//! fields in declaration order, and a strict decoder that accepts exactly
//! that shape and discards anything else.

use vstd::prelude::*;
use vstd::utf8::encode_utf8;
use crate::message::{Action, Category, EventMessage, EventMeta, EventModel, EventSource, printable};
use crate::strutil::string_from_ascii_bytes;

verus! {

/// The double-quote byte.
pub const QUOTE: u8 = 0x22;

/// The backslash byte.
pub const BACKSLASH: u8 = 0x5c;

/// The bytes of an ASCII string literal, character by character.
pub open spec fn lit_bytes(s: Seq<char>) -> Seq<u8> {
    Seq::new(s.len(), |i: int| s[i] as u8)
}

/// How a single byte of field content appears inside a JSON string: quotes
/// and backslashes get a backslash escape, everything else is emitted as is.
pub open spec fn escape_byte(b: u8) -> Seq<u8> {
    if b == QUOTE || b == BACKSLASH {
        seq![BACKSLASH, b]
    } else {
        seq![b]
    }
}

/// A whole field, escaped byte by byte.
pub open spec fn escape_bytes(s: Seq<u8>) -> Seq<u8>
    decreases s.len(),
{
    if s.len() == 0 {
        Seq::empty()
    } else {
        escape_byte(s[0]) + escape_bytes(s.drop_first())
    }
}

/// The category's wire name together with the string's closing quote.
pub open spec fn category_wire(c: Category) -> Seq<char> {
    match c {
        Category::Pool => "Pool\""@,
        Category::Volume => "Volume\""@,
        Category::Unknown => "Unknown\""@,
    }
}

/// The action's wire name together with the string's closing quote.
pub open spec fn action_wire(a: Action) -> Seq<char> {
    match a {
        Action::CreateEvent => "CreateEvent\""@,
        Action::DeleteEvent => "DeleteEvent\""@,
        Action::Unknown => "Unknown\""@,
    }
}

/// The canonical wire form of an event: a JSON object whose fields appear in
/// declaration order, each text field as an escaped JSON string.
pub open spec fn spec_encode(m: EventModel) -> Seq<u8> {
    lit_bytes("{\"category\":\""@) + lit_bytes(category_wire(m.category))
        + lit_bytes(",\"action\":\""@) + lit_bytes(action_wire(m.action))
        + lit_bytes(",\"target\":\""@) + escape_bytes(m.target) + seq![QUOTE]
        + lit_bytes(",\"metadata\":{\"id\":\""@) + escape_bytes(m.id) + seq![QUOTE]
        + lit_bytes(",\"source\":{\"component\":\""@) + escape_bytes(m.component) + seq![QUOTE]
        + lit_bytes(",\"node\":\""@) + escape_bytes(m.node) + seq![QUOTE]
        + lit_bytes("},\"event_timestamp\":\""@) + escape_bytes(m.event_timestamp) + seq![QUOTE]
        + lit_bytes(",\"version\":\""@) + escape_bytes(m.version) + seq![QUOTE]
        + lit_bytes("}}"@)
}

/// Splitting a field keeps the escaping of the parts.
proof fn lemma_escape_bytes_app(s: Seq<u8>, t: Seq<u8>)
    ensures
        escape_bytes(s + t) == escape_bytes(s) + escape_bytes(t),
    decreases s.len(),
{
    if s.len() == 0 {
        assert(s + t =~= t);
        assert(escape_bytes(s) + escape_bytes(t) =~= escape_bytes(t));
    } else {
        assert((s + t).drop_first() =~= s.drop_first() + t);
        lemma_escape_bytes_app(s.drop_first(), t);
        assert((s + t)[0] == s[0]);
        assert(escape_byte(s[0]) + (escape_bytes(s.drop_first()) + escape_bytes(t)) =~= (
        escape_byte(s[0]) + escape_bytes(s.drop_first())) + escape_bytes(t));
    }
}

/// Appends the bytes of an ASCII literal to the output buffer.
fn push_literal(out: &mut Vec<u8>, s: &str)
    requires
        s.is_ascii(),
    ensures
        final(out)@ == old(out)@ + lit_bytes(s@),
{
    let n = s.unicode_len();
    let mut i: usize = 0;
    while i < n
        invariant
            n == s@.len(),
            s.is_ascii(),
            i <= n,
            out@ == old(out)@ + lit_bytes(s@).take(i as int),
        decreases n - i,
    {
        let b = s.get_ascii(i);
        out.push(b);
        proof {
            assert(lit_bytes(s@).take(i + 1) =~= lit_bytes(s@).take(i as int).push(
                s@[i as int] as u8));
            assert(out@ =~= old(out)@ + lit_bytes(s@).take(i + 1));
        }
        i += 1;
    }
    proof {
        assert(lit_bytes(s@).take(n as int) =~= lit_bytes(s@));
    }
}

/// Appends a field's content, escaping quotes and backslashes.
fn push_escaped(out: &mut Vec<u8>, data: &Vec<u8>)
    ensures
        final(out)@ == old(out)@ + escape_bytes(data@),
{
    let mut i: usize = 0;
    while i < data.len()
        invariant
            i <= data@.len(),
            out@ == old(out)@ + escape_bytes(data@.take(i as int)),
        decreases data@.len() - i,
    {
        let b = data[i];
        if b == QUOTE || b == BACKSLASH {
            out.push(BACKSLASH);
            out.push(b);
        } else {
            out.push(b);
        }
        proof {
            assert(data@.take(i + 1) =~= data@.take(i as int) + seq![data@[i as int]]);
            lemma_escape_bytes_app(data@.take(i as int), seq![data@[i as int]]);
            let b_here = data@[i as int];
            assert(seq![b_here].drop_first() =~= Seq::<u8>::empty());
            assert(escape_bytes(seq![b_here]) == escape_byte(b_here) + escape_bytes(
                Seq::<u8>::empty()));
            assert(escape_byte(b_here) + Seq::<u8>::empty() =~= escape_byte(b_here));
            assert(out@ =~= old(out)@ + escape_bytes(data@.take(i + 1)));
        }
        i += 1;
    }
    proof {
        assert(data@.take(data@.len() as int) =~= data@);
    }
}

/// Appends an escaped string field followed by its closing quote.
fn push_field(out: &mut Vec<u8>, field: &str)
    ensures
        final(out)@ == old(out)@ + escape_bytes(encode_utf8(field@)) + seq![QUOTE],
{
    let data = field.as_bytes_vec();
    push_escaped(out, &data);
    out.push(QUOTE);
}

/// Serializes an event message into its canonical wire form.
pub fn encode_event(msg: &EventMessage) -> (r: Vec<u8>)
    ensures
        r@ == spec_encode(msg@),
{
    proof {
        reveal_strlit("{\"category\":\"");
        reveal_strlit(",\"action\":\"");
        reveal_strlit(",\"target\":\"");
        reveal_strlit(",\"metadata\":{\"id\":\"");
        reveal_strlit(",\"source\":{\"component\":\"");
        reveal_strlit(",\"node\":\"");
        reveal_strlit("},\"event_timestamp\":\"");
        reveal_strlit(",\"version\":\"");
        reveal_strlit("}}");
        reveal_strlit("Pool\"");
        reveal_strlit("Volume\"");
        reveal_strlit("Unknown\"");
        reveal_strlit("CreateEvent\"");
        reveal_strlit("DeleteEvent\"");
    }
    let mut out: Vec<u8> = Vec::new();
    push_literal(&mut out, "{\"category\":\"");
    match msg.category {
        Category::Pool => push_literal(&mut out, "Pool\""),
        Category::Volume => push_literal(&mut out, "Volume\""),
        Category::Unknown => push_literal(&mut out, "Unknown\""),
    }
    push_literal(&mut out, ",\"action\":\"");
    match msg.action {
        Action::CreateEvent => push_literal(&mut out, "CreateEvent\""),
        Action::DeleteEvent => push_literal(&mut out, "DeleteEvent\""),
        Action::Unknown => push_literal(&mut out, "Unknown\""),
    }
    push_literal(&mut out, ",\"target\":\"");
    push_field(&mut out, self_str(&msg.target));
    push_literal(&mut out, ",\"metadata\":{\"id\":\"");
    push_field(&mut out, self_str(&msg.metadata.id));
    push_literal(&mut out, ",\"source\":{\"component\":\"");
    push_field(&mut out, self_str(&msg.metadata.source.component));
    push_literal(&mut out, ",\"node\":\"");
    push_field(&mut out, self_str(&msg.metadata.source.node));
    push_literal(&mut out, "},\"event_timestamp\":\"");
    push_field(&mut out, self_str(&msg.metadata.event_timestamp));
    push_literal(&mut out, ",\"version\":\"");
    push_field(&mut out, self_str(&msg.metadata.version));
    push_literal(&mut out, "}}");
    out
}

/// Borrows a `String` as a `&str`.
fn self_str(s: &String) -> (r: &str)
    ensures
        r@ == s@,
{
    s.as_str()
}

/// Consumes `lit` at `pos` if the input holds exactly those bytes there.
pub open spec fn spec_parse_lit(s: Seq<u8>, pos: int, lit: Seq<u8>) -> Option<int> {
    if 0 <= pos && pos + lit.len() <= s.len() && s.subrange(pos, pos + lit.len()) == lit {
        Some(pos + lit.len())
    } else {
        None
    }
}

/// Consumes the body of a JSON string starting just after its opening quote,
/// through its closing quote, and yields the unescaped content. Only the two
/// escapes the encoder emits are understood, and only printable ASCII is
/// accepted raw; anything else fails the parse.
pub open spec fn spec_parse_string(s: Seq<u8>, pos: int) -> Option<(Seq<u8>, int)>
    decreases s.len() - pos,
{
    if pos < 0 || pos >= s.len() {
        None
    } else if s[pos] == QUOTE {
        Some((Seq::empty(), pos + 1))
    } else if s[pos] == BACKSLASH {
        if pos + 2 <= s.len() && (s[pos + 1] == QUOTE || s[pos + 1] == BACKSLASH) {
            match spec_parse_string(s, pos + 2) {
                Some(r) => Some((seq![s[pos + 1]] + r.0, r.1)),
                None => None,
            }
        } else {
            None
        }
    } else if 0x20 <= s[pos] < 0x80 {
        match spec_parse_string(s, pos + 1) {
            Some(r) => Some((seq![s[pos]] + r.0, r.1)),
            None => None,
        }
    } else {
        None
    }
}

/// Consumes a category wire name and the closing quote of its string.
pub open spec fn spec_parse_category(s: Seq<u8>, pos: int) -> Option<(Category, int)> {
    match spec_parse_lit(s, pos, lit_bytes("Pool\""@)) {
        Some(p) => Some((Category::Pool, p)),
        None => match spec_parse_lit(s, pos, lit_bytes("Volume\""@)) {
            Some(p) => Some((Category::Volume, p)),
            None => match spec_parse_lit(s, pos, lit_bytes("Unknown\""@)) {
                Some(p) => Some((Category::Unknown, p)),
                None => None,
            },
        },
    }
}

/// Consumes an action wire name and the closing quote of its string.
pub open spec fn spec_parse_action(s: Seq<u8>, pos: int) -> Option<(Action, int)> {
    match spec_parse_lit(s, pos, lit_bytes("CreateEvent\""@)) {
        Some(p) => Some((Action::CreateEvent, p)),
        None => match spec_parse_lit(s, pos, lit_bytes("DeleteEvent\""@)) {
            Some(p) => Some((Action::DeleteEvent, p)),
            None => match spec_parse_lit(s, pos, lit_bytes("Unknown\""@)) {
                Some(p) => Some((Action::Unknown, p)),
                None => None,
            },
        },
    }
}

/// Parses a whole event in canonical wire form; the input must be consumed
/// exactly.
pub open spec fn spec_parse_event(s: Seq<u8>) -> Option<EventModel> {
    match spec_parse_lit(s, 0, lit_bytes("{\"category\":\""@)) {
        None => None,
        Some(p) => match spec_parse_category(s, p) {
            None => None,
            Some((category, p)) => match spec_parse_lit(s, p, lit_bytes(",\"action\":\""@)) {
                None => None,
                Some(p) => match spec_parse_action(s, p) {
                    None => None,
                    Some((action, p)) => match spec_parse_lit(s, p, lit_bytes(",\"target\":\""@)) {
                        None => None,
                        Some(p) => match spec_parse_string(s, p) {
                            None => None,
                            Some((target, p)) => spec_parse_event_mid(s, p, category, action, target),
                        },
                    },
                },
            },
        },
    }
}

/// The middle of the event parse: the metadata's id and source.
pub open spec fn spec_parse_event_mid(
    s: Seq<u8>,
    pos: int,
    category: Category,
    action: Action,
    target: Seq<u8>,
) -> Option<EventModel> {
    match spec_parse_lit(s, pos, lit_bytes(",\"metadata\":{\"id\":\""@)) {
        None => None,
        Some(p) => match spec_parse_string(s, p) {
            None => None,
            Some((id, p)) => match spec_parse_lit(s, p, lit_bytes(",\"source\":{\"component\":\""@)) {
                None => None,
                Some(p) => match spec_parse_string(s, p) {
                    None => None,
                    Some((component, p)) => match spec_parse_lit(s, p, lit_bytes(",\"node\":\""@)) {
                        None => None,
                        Some(p) => match spec_parse_string(s, p) {
                            None => None,
                            Some((node, p)) => spec_parse_event_tail(
                                s,
                                p,
                                category,
                                action,
                                target,
                                id,
                                component,
                                node,
                            ),
                        },
                    },
                },
            },
        },
    }
}

/// The tail of the event parse: timestamp, version, and the closing braces.
pub open spec fn spec_parse_event_tail(
    s: Seq<u8>,
    pos: int,
    category: Category,
    action: Action,
    target: Seq<u8>,
    id: Seq<u8>,
    component: Seq<u8>,
    node: Seq<u8>,
) -> Option<EventModel> {
    match spec_parse_lit(s, pos, lit_bytes("},\"event_timestamp\":\""@)) {
        None => None,
        Some(p) => match spec_parse_string(s, p) {
            None => None,
            Some((event_timestamp, p)) => match spec_parse_lit(
                s,
                p,
                lit_bytes(",\"version\":\""@),
            ) {
                None => None,
                Some(p) => match spec_parse_string(s, p) {
                    None => None,
                    Some((version, p)) => match spec_parse_lit(s, p, lit_bytes("}}"@)) {
                        None => None,
                        Some(p) => if p == s.len() {
                            Some(
                                EventModel {
                                    category,
                                    action,
                                    target,
                                    id,
                                    component,
                                    node,
                                    event_timestamp,
                                    version,
                                },
                            )
                        } else {
                            None
                        },
                    },
                },
            },
        },
    }
}

/// Checks the input for `lit` at `pos`.
fn parse_lit(bytes: &Vec<u8>, pos: usize, lit: &str) -> (r: Option<usize>)
    requires
        lit.is_ascii(),
    ensures
        match r {
            Some(p) => spec_parse_lit(bytes@, pos as int, lit_bytes(lit@)) == Some(p as int),
            None => spec_parse_lit(bytes@, pos as int, lit_bytes(lit@)) is None,
        },
{
    let n = lit.unicode_len();
    if pos > bytes.len() || n > bytes.len() - pos {
        return None;
    }
    let mut i: usize = 0;
    while i < n
        invariant
            lit.is_ascii(),
            n == lit@.len(),
            i <= n,
            pos + n <= bytes@.len(),
            bytes@.len() <= usize::MAX,
            forall|j: int| 0 <= j < i ==> bytes@[pos + j] == #[trigger] lit_bytes(lit@)[j],
        decreases n - i,
    {
        let b = lit.get_ascii(i);
        if bytes[pos + i] != b {
            proof {
                let sub = bytes@.subrange(pos as int, pos + n);
                assert(sub[i as int] == bytes@[pos + i]);
                assert(sub[i as int] != lit_bytes(lit@)[i as int]);
            }
            return None;
        }
        i += 1;
    }
    proof {
        assert(bytes@.subrange(pos as int, pos + n) =~= lit_bytes(lit@));
    }
    Some(pos + n)
}

/// Parses a JSON string body from just after the opening quote through the
/// closing quote, unescaping the content.
fn parse_string(bytes: &Vec<u8>, pos: usize) -> (r: Option<(Vec<u8>, usize)>)
    ensures
        match r {
            Some(v) => spec_parse_string(bytes@, pos as int) == Some((v.0@, v.1 as int))
                && printable(v.0@),
            None => spec_parse_string(bytes@, pos as int) is None,
        },
    decreases bytes@.len() - pos,
{
    if pos >= bytes.len() {
        return None;
    }
    let b = bytes[pos];
    if b == QUOTE {
        let content: Vec<u8> = Vec::new();
        return Some((content, pos + 1));
    }
    if b == BACKSLASH {
        if bytes.len() - pos >= 2 {
            let e = bytes[pos + 1];
            if e == QUOTE || e == BACKSLASH {
                match parse_string(bytes, pos + 2) {
                    Some((mut content, p)) => {
                        content.insert(0, e);
                        proof {
                            assert(content@ =~= seq![e] + content@.subrange(
                                1,
                                content@.len() as int,
                            ));
                        }
                        Some((content, p))
                    },
                    None => None,
                }
            } else {
                None
            }
        } else {
            None
        }
    } else if 0x20 <= b && b < 0x80 {
        match parse_string(bytes, pos + 1) {
            Some((mut content, p)) => {
                content.insert(0, b);
                proof {
                    assert(content@ =~= seq![b] + content@.subrange(1, content@.len() as int));
                }
                Some((content, p))
            },
            None => None,
        }
    } else {
        None
    }
}

/// Parses a category wire name.
fn parse_category(bytes: &Vec<u8>, pos: usize) -> (r: Option<(Category, usize)>)
    ensures
        match r {
            Some(v) => spec_parse_category(bytes@, pos as int) == Some((v.0, v.1 as int)),
            None => spec_parse_category(bytes@, pos as int) is None,
        },
{
    proof {
        reveal_strlit("Pool\"");
        reveal_strlit("Volume\"");
        reveal_strlit("Unknown\"");
    }
    if let Some(p) = parse_lit(bytes, pos, "Pool\"") {
        return Some((Category::Pool, p));
    }
    if let Some(p) = parse_lit(bytes, pos, "Volume\"") {
        return Some((Category::Volume, p));
    }
    if let Some(p) = parse_lit(bytes, pos, "Unknown\"") {
        return Some((Category::Unknown, p));
    }
    None
}

/// Parses an action wire name.
fn parse_action(bytes: &Vec<u8>, pos: usize) -> (r: Option<(Action, usize)>)
    ensures
        match r {
            Some(v) => spec_parse_action(bytes@, pos as int) == Some((v.0, v.1 as int)),
            None => spec_parse_action(bytes@, pos as int) is None,
        },
{
    proof {
        reveal_strlit("CreateEvent\"");
        reveal_strlit("DeleteEvent\"");
        reveal_strlit("Unknown\"");
    }
    if let Some(p) = parse_lit(bytes, pos, "CreateEvent\"") {
        return Some((Action::CreateEvent, p));
    }
    if let Some(p) = parse_lit(bytes, pos, "DeleteEvent\"") {
        return Some((Action::DeleteEvent, p));
    }
    if let Some(p) = parse_lit(bytes, pos, "Unknown\"") {
        return Some((Action::Unknown, p));
    }
    None
}

/// Turns parsed printable-ASCII content into the owned string whose UTF-8
/// bytes are exactly that content.
fn field_string(content: Vec<u8>) -> (r: String)
    requires
        printable(content@),
    ensures
        encode_utf8(r@) == content@,
{
    let ghost content_view = content@;
    let r = string_from_ascii_bytes(content);
    proof {
        let chars = r@;
        assert forall|i: int| 0 <= i < chars.len() implies '\0' <= #[trigger] chars[i]
            <= '\u{7f}' by {
            vstd::utf8::char_u32_cast(chars[i], content_view[i] as u32);
        }
        assert(vstd::utf8::is_ascii_chars(chars));
        vstd::utf8::is_ascii_chars_encode_utf8(chars);
        assert forall|i: int| 0 <= i < chars.len() implies #[trigger] encode_utf8(chars)[i]
            == content_view[i] by {
            vstd::utf8::char_u32_cast(chars[i], content_view[i] as u32);
        }
        assert(encode_utf8(chars) =~= content_view);
    }
    r
}

/// Deserializes an event message from its canonical wire form; anything else
/// comes back as `None`.
pub fn decode_event(bytes: &Vec<u8>) -> (r: Option<EventMessage>)
    ensures
        match r {
            Some(m) => spec_parse_event(bytes@) == Some(m@) && m@.printable_ascii(),
            None => spec_parse_event(bytes@) is None,
        },
{
    proof {
        reveal_strlit("{\"category\":\"");
        reveal_strlit(",\"action\":\"");
        reveal_strlit(",\"target\":\"");
        reveal_strlit(",\"metadata\":{\"id\":\"");
        reveal_strlit(",\"source\":{\"component\":\"");
        reveal_strlit(",\"node\":\"");
        reveal_strlit("},\"event_timestamp\":\"");
        reveal_strlit(",\"version\":\"");
        reveal_strlit("}}");
    }
    let p = match parse_lit(bytes, 0, "{\"category\":\"") {
        Some(p) => p,
        None => {
            return None;
        },
    };
    let (category, p) = match parse_category(bytes, p) {
        Some(v) => v,
        None => {
            return None;
        },
    };
    let p = match parse_lit(bytes, p, ",\"action\":\"") {
        Some(p) => p,
        None => {
            return None;
        },
    };
    let (action, p) = match parse_action(bytes, p) {
        Some(v) => v,
        None => {
            return None;
        },
    };
    let p = match parse_lit(bytes, p, ",\"target\":\"") {
        Some(p) => p,
        None => {
            return None;
        },
    };
    let (target_b, p) = match parse_string(bytes, p) {
        Some(v) => v,
        None => {
            return None;
        },
    };
    let p = match parse_lit(bytes, p, ",\"metadata\":{\"id\":\"") {
        Some(p) => p,
        None => {
            return None;
        },
    };
    let (id_b, p) = match parse_string(bytes, p) {
        Some(v) => v,
        None => {
            return None;
        },
    };
    let p = match parse_lit(bytes, p, ",\"source\":{\"component\":\"") {
        Some(p) => p,
        None => {
            return None;
        },
    };
    let (component_b, p) = match parse_string(bytes, p) {
        Some(v) => v,
        None => {
            return None;
        },
    };
    let p = match parse_lit(bytes, p, ",\"node\":\"") {
        Some(p) => p,
        None => {
            return None;
        },
    };
    let (node_b, p) = match parse_string(bytes, p) {
        Some(v) => v,
        None => {
            return None;
        },
    };
    let p = match parse_lit(bytes, p, "},\"event_timestamp\":\"") {
        Some(p) => p,
        None => {
            return None;
        },
    };
    let (timestamp_b, p) = match parse_string(bytes, p) {
        Some(v) => v,
        None => {
            return None;
        },
    };
    let p = match parse_lit(bytes, p, ",\"version\":\"") {
        Some(p) => p,
        None => {
            return None;
        },
    };
    let (version_b, p) = match parse_string(bytes, p) {
        Some(v) => v,
        None => {
            return None;
        },
    };
    let p = match parse_lit(bytes, p, "}}") {
        Some(p) => p,
        None => {
            return None;
        },
    };
    if p != bytes.len() {
        return None;
    }
    let ghost model = EventModel {
        category,
        action,
        target: target_b@,
        id: id_b@,
        component: component_b@,
        node: node_b@,
        event_timestamp: timestamp_b@,
        version: version_b@,
    };
    let target = field_string(target_b);
    let id = field_string(id_b);
    let component = field_string(component_b);
    let node = field_string(node_b);
    let event_timestamp = field_string(timestamp_b);
    let version = field_string(version_b);
    let msg = EventMessage {
        category,
        action,
        target,
        metadata: EventMeta { id, source: EventSource { component, node }, event_timestamp, version },
    };
    proof {
        assert(msg@ == model);
        assert(spec_parse_event(bytes@) == Some(model));
    }
    Some(msg)
}

/// A literal placed at its own position in the input parses to the position
/// just past it.
proof fn lemma_parse_lit_step(pre: Seq<u8>, lit: Seq<u8>, suf: Seq<u8>)
    ensures
        spec_parse_lit(pre + lit + suf, pre.len() as int, lit) == Some(
            pre.len() as int + lit.len() as int,
        ),
{
    let s = pre + lit + suf;
    assert(s.subrange(pre.len() as int, pre.len() as int + lit.len()) =~= lit);
}

/// An escaped field followed by its closing quote parses back to exactly the
/// field content.
proof fn lemma_parse_string_step(pre: Seq<u8>, content: Seq<u8>, suf: Seq<u8>)
    requires
        printable(content),
    ensures
        spec_parse_string(pre + escape_bytes(content) + seq![QUOTE] + suf, pre.len() as int)
            == Some((content, pre.len() as int + escape_bytes(content).len() + 1)),
    decreases content.len(),
{
    let s = pre + escape_bytes(content) + seq![QUOTE] + suf;
    if content.len() == 0 {
        assert(escape_bytes(content) =~= Seq::<u8>::empty());
        assert(s[pre.len() as int] == QUOTE);
        assert(content =~= Seq::<u8>::empty());
    } else {
        let c0 = content[0];
        let rest = content.drop_first();
        assert(printable(rest));
        assert(escape_bytes(content) == escape_byte(c0) + escape_bytes(rest));
        if c0 == QUOTE || c0 == BACKSLASH {
            let pre2 = pre + seq![BACKSLASH, c0];
            lemma_parse_string_step(pre2, rest, suf);
            assert(s =~= pre2 + escape_bytes(rest) + seq![QUOTE] + suf);
            assert(s[pre.len() as int] == BACKSLASH);
            assert(s[pre.len() as int + 1] == c0);
            assert(seq![s[pre.len() as int + 1]] + rest =~= content);
        } else {
            assert(0x20 <= c0 < 0x80);
            let pre2 = pre + seq![c0];
            lemma_parse_string_step(pre2, rest, suf);
            assert(s =~= pre2 + escape_bytes(rest) + seq![QUOTE] + suf);
            assert(s[pre.len() as int] == c0);
            assert(seq![s[pre.len() as int]] + rest =~= content);
        }
    }
}

/// A category wire name at its own position parses back to that category.
proof fn lemma_parse_category_step(pre: Seq<u8>, c: Category, suf: Seq<u8>)
    ensures
        spec_parse_category(pre + lit_bytes(category_wire(c)) + suf, pre.len() as int) == Some(
            (c, pre.len() as int + category_wire(c).len() as int),
        ),
{
    reveal_strlit("Pool\"");
    reveal_strlit("Volume\"");
    reveal_strlit("Unknown\"");
    let s = pre + lit_bytes(category_wire(c)) + suf;
    lemma_parse_lit_step(pre, lit_bytes(category_wire(c)), suf);
    let pool = lit_bytes("Pool\""@);
    let volume = lit_bytes("Volume\""@);
    match c {
        Category::Pool => {},
        Category::Volume => {
            if pre.len() as int + pool.len() <= s.len() {
                assert(s[pre.len() as int] == 'V' as u8);
                assert(s.subrange(pre.len() as int, pre.len() as int + pool.len())[0] == s[pre.len()
                    as int]);
                assert(pool[0] == 'P' as u8);
                assert(s.subrange(pre.len() as int, pre.len() as int + pool.len()) != pool);
            }
        },
        Category::Unknown => {
            if pre.len() as int + pool.len() <= s.len() {
                assert(s[pre.len() as int] == 'U' as u8);
                assert(s.subrange(pre.len() as int, pre.len() as int + pool.len())[0] == s[pre.len()
                    as int]);
                assert(pool[0] == 'P' as u8);
                assert(s.subrange(pre.len() as int, pre.len() as int + pool.len()) != pool);
            }
            if pre.len() as int + volume.len() <= s.len() {
                assert(s[pre.len() as int] == 'U' as u8);
                assert(s.subrange(pre.len() as int, pre.len() as int + volume.len())[0] == s[pre.len()
                    as int]);
                assert(volume[0] == 'V' as u8);
                assert(s.subrange(pre.len() as int, pre.len() as int + volume.len()) != volume);
            }
        },
    }
}

/// An action wire name at its own position parses back to that action.
proof fn lemma_parse_action_step(pre: Seq<u8>, a: Action, suf: Seq<u8>)
    ensures
        spec_parse_action(pre + lit_bytes(action_wire(a)) + suf, pre.len() as int) == Some(
            (a, pre.len() as int + action_wire(a).len() as int),
        ),
{
    reveal_strlit("CreateEvent\"");
    reveal_strlit("DeleteEvent\"");
    reveal_strlit("Unknown\"");
    let s = pre + lit_bytes(action_wire(a)) + suf;
    lemma_parse_lit_step(pre, lit_bytes(action_wire(a)), suf);
    let create = lit_bytes("CreateEvent\""@);
    let delete = lit_bytes("DeleteEvent\""@);
    match a {
        Action::CreateEvent => {},
        Action::DeleteEvent => {
            if pre.len() as int + create.len() <= s.len() {
                assert(s[pre.len() as int] == 'D' as u8);
                assert(s.subrange(pre.len() as int, pre.len() as int + create.len())[0] == s[pre.len()
                    as int]);
                assert(create[0] == 'C' as u8);
                assert(s.subrange(pre.len() as int, pre.len() as int + create.len()) != create);
            }
        },
        Action::Unknown => {
            if pre.len() as int + create.len() <= s.len() {
                assert(s[pre.len() as int] == 'U' as u8);
                assert(s.subrange(pre.len() as int, pre.len() as int + create.len())[0] == s[pre.len()
                    as int]);
                assert(create[0] == 'C' as u8);
                assert(s.subrange(pre.len() as int, pre.len() as int + create.len()) != create);
            }
            if pre.len() as int + delete.len() <= s.len() {
                assert(s[pre.len() as int] == 'U' as u8);
                assert(s.subrange(pre.len() as int, pre.len() as int + delete.len())[0] == s[pre.len()
                    as int]);
                assert(delete[0] == 'D' as u8);
                assert(s.subrange(pre.len() as int, pre.len() as int + delete.len()) != delete);
            }
        },
    }
}

/// Round trip for the tail of the event: timestamp, version and the closing
/// braces.
proof fn lemma_round_trip_tail(pre: Seq<u8>, m: EventModel)
    requires
        printable(m.event_timestamp),
        printable(m.version),
    ensures
        ({
            let q = seq![QUOTE];
            let s = pre + lit_bytes("},\"event_timestamp\":\""@) + escape_bytes(
                m.event_timestamp,
            ) + q + lit_bytes(",\"version\":\""@) + escape_bytes(m.version) + q + lit_bytes(
                "}}"@,
            );
            spec_parse_event_tail(
                s,
                pre.len() as int,
                m.category,
                m.action,
                m.target,
                m.id,
                m.component,
                m.node,
            ) == Some(m)
        }),
{
    let q = seq![QUOTE];
    let l7 = lit_bytes("},\"event_timestamp\":\""@);
    let l8 = lit_bytes(",\"version\":\""@);
    let l9 = lit_bytes("}}"@);
    let e_timestamp = escape_bytes(m.event_timestamp);
    let e_version = escape_bytes(m.version);
    let s = pre + l7 + e_timestamp + q + l8 + e_version + q + l9;
    let pre2 = pre + l7;
    let pre3 = pre2 + e_timestamp + q;
    let pre4 = pre3 + l8;
    let pre5 = pre4 + e_version + q;

    assert(s =~= pre + l7 + (e_timestamp + q + l8 + e_version + q + l9));
    lemma_parse_lit_step(pre, l7, e_timestamp + q + l8 + e_version + q + l9);

    assert(s =~= pre2 + e_timestamp + q + (l8 + e_version + q + l9));
    lemma_parse_string_step(pre2, m.event_timestamp, l8 + e_version + q + l9);

    assert(s =~= pre3 + l8 + (e_version + q + l9));
    lemma_parse_lit_step(pre3, l8, e_version + q + l9);

    assert(s =~= pre4 + e_version + q + l9);
    lemma_parse_string_step(pre4, m.version, l9);

    assert(s =~= pre5 + l9 + Seq::<u8>::empty());
    lemma_parse_lit_step(pre5, l9, Seq::<u8>::empty());

    assert(pre5.len() + l9.len() == s.len());
}
/// Round trip for the middle of the event: id, component and node, followed
/// by the tail.
#[verifier::rlimit(50)]
proof fn lemma_round_trip_mid(pre: Seq<u8>, m: EventModel)
    requires
        m.printable_ascii(),
    ensures
        ({
            let q = seq![QUOTE];
            let s = pre + lit_bytes(",\"metadata\":{\"id\":\""@) + escape_bytes(m.id) + q
                + lit_bytes(",\"source\":{\"component\":\""@) + escape_bytes(m.component) + q
                + lit_bytes(",\"node\":\""@) + escape_bytes(m.node) + q + lit_bytes(
                "},\"event_timestamp\":\""@,
            ) + escape_bytes(m.event_timestamp) + q + lit_bytes(",\"version\":\""@)
                + escape_bytes(m.version) + q + lit_bytes("}}"@);
            spec_parse_event_mid(s, pre.len() as int, m.category, m.action, m.target) == Some(m)
        }),
{
    let q = seq![QUOTE];
    let l4 = lit_bytes(",\"metadata\":{\"id\":\""@);
    let l5 = lit_bytes(",\"source\":{\"component\":\""@);
    let l6 = lit_bytes(",\"node\":\""@);
    let l7 = lit_bytes("},\"event_timestamp\":\""@);
    let l8 = lit_bytes(",\"version\":\""@);
    let l9 = lit_bytes("}}"@);
    let e_id = escape_bytes(m.id);
    let e_component = escape_bytes(m.component);
    let e_node = escape_bytes(m.node);
    let e_timestamp = escape_bytes(m.event_timestamp);
    let e_version = escape_bytes(m.version);
    let s = pre + l4 + e_id + q + l5 + e_component + q + l6 + e_node + q + l7 + e_timestamp + q
        + l8 + e_version + q + l9;

    let p1 = pre + l4;
    let p2 = p1 + e_id;
    let p3 = p2 + q;
    let p4 = p3 + l5;
    let p5 = p4 + e_component;
    let p6 = p5 + q;
    let p7 = p6 + l6;
    let p8 = p7 + e_node;
    let p9 = p8 + q;

    let r10 = l7 + e_timestamp + q + l8 + e_version + q + l9;
    let r9 = q + r10;
    let r8 = e_node + r9;
    let r7 = l6 + r8;
    let r6 = q + r7;
    let r5 = e_component + r6;
    let r4 = l5 + r5;
    let r3 = q + r4;
    let r2 = e_id + r3;
    let r1 = l4 + r2;

    assert(s == p9 + l7 + e_timestamp + q + l8 + e_version + q + l9);
    assert(r10 =~= ((((((l7 + e_timestamp) + q) + l8) + e_version) + q) + l9));
    assert(s =~= p9 + r10);
    assert((p8 + q) + r10 =~= p8 + (q + r10));
    assert((p7 + e_node) + r9 =~= p7 + (e_node + r9));
    assert((p6 + l6) + r8 =~= p6 + (l6 + r8));
    assert((p5 + q) + r7 =~= p5 + (q + r7));
    assert((p4 + e_component) + r6 =~= p4 + (e_component + r6));
    assert((p3 + l5) + r5 =~= p3 + (l5 + r5));
    assert((p2 + q) + r4 =~= p2 + (q + r4));
    assert((p1 + e_id) + r3 =~= p1 + (e_id + r3));
    assert((pre + l4) + r2 =~= pre + (l4 + r2));

    assert(s == pre + l4 + r2);
    lemma_parse_lit_step(pre, l4, r2);

    assert(s == p1 + e_id + q + r4);
    lemma_parse_string_step(p1, m.id, r4);

    assert(s == p3 + l5 + r5);
    lemma_parse_lit_step(p3, l5, r5);

    assert(s == p4 + e_component + q + r7);
    lemma_parse_string_step(p4, m.component, r7);

    assert(s == p6 + l6 + r8);
    lemma_parse_lit_step(p6, l6, r8);

    assert(s == p7 + e_node + q + r10);
    lemma_parse_string_step(p7, m.node, r10);

    assert(s == p9 + l7 + e_timestamp + q + l8 + e_version + q + l9);
    lemma_round_trip_tail(p9, m);
}

/// Round trip: an event whose text fields are printable ASCII parses back
/// from its canonical wire form to exactly itself. Together with the
/// contracts of `encode_event` and `decode_event`, this says a decoded
/// encoding is the original message.
#[verifier::rlimit(50)]
pub proof fn lemma_encode_parse_round_trip(m: EventModel)
    requires
        m.printable_ascii(),
    ensures
        spec_parse_event(spec_encode(m)) == Some(m),
{
    let s = spec_encode(m);
    let q = seq![QUOTE];
    let l1 = lit_bytes("{\"category\":\""@);
    let vc = lit_bytes(category_wire(m.category));
    let l2 = lit_bytes(",\"action\":\""@);
    let va = lit_bytes(action_wire(m.action));
    let l3 = lit_bytes(",\"target\":\""@);
    let l4 = lit_bytes(",\"metadata\":{\"id\":\""@);
    let l5 = lit_bytes(",\"source\":{\"component\":\""@);
    let l6 = lit_bytes(",\"node\":\""@);
    let l7 = lit_bytes("},\"event_timestamp\":\""@);
    let l8 = lit_bytes(",\"version\":\""@);
    let l9 = lit_bytes("}}"@);
    let e_target = escape_bytes(m.target);
    let e_id = escape_bytes(m.id);
    let e_component = escape_bytes(m.component);
    let e_node = escape_bytes(m.node);
    let e_timestamp = escape_bytes(m.event_timestamp);
    let e_version = escape_bytes(m.version);

    let p1 = l1;
    let p2 = p1 + vc;
    let p3 = p2 + l2;
    let p4 = p3 + va;
    let p5 = p4 + l3;
    let p6 = p5 + e_target;
    let p7 = p6 + q;

    let r8 = l4 + e_id + q + l5 + e_component + q + l6 + e_node + q + l7 + e_timestamp + q + l8
        + e_version + q + l9;
    let r7 = q + r8;
    let r6 = e_target + r7;
    let r5 = l3 + r6;
    let r4 = va + r5;
    let r3 = l2 + r4;
    let r2 = vc + r3;

    assert(s == p7 + l4 + e_id + q + l5 + e_component + q + l6 + e_node + q + l7 + e_timestamp + q
        + l8 + e_version + q + l9);
    assert(r8 =~= ((((((((((((((l4 + e_id) + q) + l5) + e_component) + q) + l6) + e_node) + q)
        + l7) + e_timestamp) + q) + l8) + e_version) + q) + l9);
    assert(s =~= p7 + r8);
    assert((p6 + q) + r8 =~= p6 + (q + r8));
    assert((p5 + e_target) + r7 =~= p5 + (e_target + r7));
    assert((p4 + l3) + r6 =~= p4 + (l3 + r6));
    assert((p3 + va) + r5 =~= p3 + (va + r5));
    assert((p2 + l2) + r4 =~= p2 + (l2 + r4));
    assert((p1 + vc) + r3 =~= p1 + (vc + r3));

    assert(s == Seq::<u8>::empty() + l1 + r2) by {
        assert(Seq::<u8>::empty() + l1 =~= l1);
        assert(s == p1 + r2);
    }
    lemma_parse_lit_step(Seq::<u8>::empty(), l1, r2);

    assert(s == p1 + vc + r3);
    lemma_parse_category_step(p1, m.category, r3);

    assert(s == p2 + l2 + r4);
    lemma_parse_lit_step(p2, l2, r4);

    assert(s == p3 + va + r5);
    lemma_parse_action_step(p3, m.action, r5);

    assert(s == p4 + l3 + r6);
    lemma_parse_lit_step(p4, l3, r6);

    assert(s == p5 + e_target + q + r8);
    lemma_parse_string_step(p5, m.target, r8);

    assert(s == p7 + l4 + e_id + q + l5 + e_component + q + l6 + e_node + q + l7 + e_timestamp + q
        + l8 + e_version + q + l9);
    lemma_round_trip_mid(p7, m);
}

} // verus!

