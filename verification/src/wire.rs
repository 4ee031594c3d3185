use vstd::prelude::*;
use crate::text::chars_vec;
use crate::text::string_from_chars;
use vstd::string::StringExecFns;

verus! {

/// An outbound wire message: either chat content addressed to a channel, or
/// the keep-alive variant the wire format reserves and this bridge never
/// sends.
pub enum OutboundMessage {
    Content { destination_id: u64, text: String },
    KeepAlive,
}

/// Decimal digit character for `d` in 0..10.
pub open spec fn digit_char(d: int) -> char {
    if d == 0 {
        '0'
    } else if d == 1 {
        '1'
    } else if d == 2 {
        '2'
    } else if d == 3 {
        '3'
    } else if d == 4 {
        '4'
    } else if d == 5 {
        '5'
    } else if d == 6 {
        '6'
    } else if d == 7 {
        '7'
    } else if d == 8 {
        '8'
    } else {
        '9'
    }
}

/// The decimal rendering of a nonnegative integer, most significant digit
/// first, with no leading zeros (a single zero for 0).
pub open spec fn dec_digits(n: int) -> Seq<char>
    decreases n,
{
    if n < 10 {
        seq![digit_char(n)]
    } else {
        dec_digits(n / 10).push(digit_char(n % 10))
    }
}

/// Executable decimal digit character.
fn digit_exec(d: u64) -> (r: char)
    requires
        d < 10,
    ensures
        r == digit_char(d as int),
{
    if d == 0 {
        '0'
    } else if d == 1 {
        '1'
    } else if d == 2 {
        '2'
    } else if d == 3 {
        '3'
    } else if d == 4 {
        '4'
    } else if d == 5 {
        '5'
    } else if d == 6 {
        '6'
    } else if d == 7 {
        '7'
    } else if d == 8 {
        '8'
    } else {
        '9'
    }
}

/// Renders an unsigned integer in decimal.
pub fn u64_decimal_chars(n: u64) -> (r: Vec<char>)
    ensures
        r@ == dec_digits(n as int),
    decreases n,
{
    if n < 10 {
        let mut v: Vec<char> = Vec::new();
        v.push(digit_exec(n));
        proof {
            assert(v@ =~= seq![digit_char(n as int)]);
        }
        v
    } else {
        let mut v = u64_decimal_chars(n / 10);
        v.push(digit_exec(n % 10));
        proof {
            assert(v@ =~= dec_digits(n as int / 10).push(digit_char(n as int % 10)));
        }
        v
    }
}

/// Lowercase hexadecimal digit character for `d` in 0..16.
pub open spec fn hex_char(d: int) -> char {
    if d < 10 {
        digit_char(d)
    } else if d == 10 {
        'a'
    } else if d == 11 {
        'b'
    } else if d == 12 {
        'c'
    } else if d == 13 {
        'd'
    } else if d == 14 {
        'e'
    } else {
        'f'
    }
}

/// Executable lowercase hexadecimal digit character.
fn hex_exec(d: u32) -> (r: char)
    requires
        d < 16,
    ensures
        r == hex_char(d as int),
{
    if d == 0 {
        '0'
    } else if d == 1 {
        '1'
    } else if d == 2 {
        '2'
    } else if d == 3 {
        '3'
    } else if d == 4 {
        '4'
    } else if d == 5 {
        '5'
    } else if d == 6 {
        '6'
    } else if d == 7 {
        '7'
    } else if d == 8 {
        '8'
    } else if d == 9 {
        '9'
    } else if d == 10 {
        'a'
    } else if d == 11 {
        'b'
    } else if d == 12 {
        'c'
    } else if d == 13 {
        'd'
    } else if d == 14 {
        'e'
    } else {
        'f'
    }
}

/// How one character appears inside a JSON string literal: quote and
/// backslash get a backslash escape, the control characters with short
/// escapes use them, the remaining control characters use a four-digit
/// hexadecimal escape, and everything else stands as itself.
pub open spec fn escape_char(c: char) -> Seq<char> {
    let u = c as u32;
    if c == '"' {
        seq!['\\', '"']
    } else if c == '\\' {
        seq!['\\', '\\']
    } else if u == 0x8 {
        seq!['\\', 'b']
    } else if u == 0x9 {
        seq!['\\', 't']
    } else if u == 0xA {
        seq!['\\', 'n']
    } else if u == 0xC {
        seq!['\\', 'f']
    } else if u == 0xD {
        seq!['\\', 'r']
    } else if u < 0x20 {
        seq!['\\', 'u', '0', '0', hex_char(u as int / 16), hex_char(u as int % 16)]
    } else {
        seq![c]
    }
}

/// The body of a JSON string literal holding the given text.
pub open spec fn json_escaped(s: Seq<char>) -> Seq<char>
    decreases s.len(),
{
    if s.len() == 0 {
        Seq::empty()
    } else {
        escape_char(s[0]) + json_escaped(s.drop_first())
    }
}

/// Escaping a text one character longer appends that character's escape.
pub proof fn lemma_json_escaped_push(s: Seq<char>, c: char)
    ensures
        json_escaped(s.push(c)) == json_escaped(s) + escape_char(c),
    decreases s.len(),
{
    if s.len() == 0 {
        assert(s.push(c)[0] == c);
        assert(s.push(c).drop_first() =~= Seq::<char>::empty());
        assert(json_escaped(Seq::<char>::empty()) == Seq::<char>::empty());
        assert(json_escaped(s.push(c)) == escape_char(c) + json_escaped(
            s.push(c).drop_first(),
        ));
        assert(json_escaped(s.push(c)) =~= json_escaped(s) + escape_char(c));
    } else {
        assert(s.push(c)[0] == s[0]);
        assert(s.push(c).drop_first() =~= s.drop_first().push(c));
        lemma_json_escaped_push(s.drop_first(), c);
        assert(json_escaped(s.push(c)) =~= json_escaped(s) + escape_char(c));
    }
}

/// Appends the escaped form of one character.
fn push_escaped(out: &mut Vec<char>, c: char)
    ensures
        final(out)@ == old(out)@ + escape_char(c),
{
    let u: u32 = c as u32;
    if c == '"' {
        out.push('\\');
        out.push('"');
    } else if c == '\\' {
        out.push('\\');
        out.push('\\');
    } else if u == 0x8 {
        out.push('\\');
        out.push('b');
    } else if u == 0x9 {
        out.push('\\');
        out.push('t');
    } else if u == 0xA {
        out.push('\\');
        out.push('n');
    } else if u == 0xC {
        out.push('\\');
        out.push('f');
    } else if u == 0xD {
        out.push('\\');
        out.push('r');
    } else if u < 0x20 {
        out.push('\\');
        out.push('u');
        out.push('0');
        out.push('0');
        out.push(hex_exec(u / 16));
        out.push(hex_exec(u % 16));
    } else {
        out.push(c);
    }
    proof {
        assert(final(out)@ =~= old(out)@ + escape_char(c));
    }
}

/// Escapes a text for use as the body of a JSON string literal.
pub fn json_escape(v: &Vec<char>) -> (r: Vec<char>)
    ensures
        r@ == json_escaped(v@),
{
    let mut out: Vec<char> = Vec::new();
    let mut i: usize = 0;
    proof {
        assert(v@.take(0) =~= Seq::<char>::empty());
    }
    while i < v.len()
        invariant
            i <= v.len(),
            out@ == json_escaped(v@.take(i as int)),
        decreases v.len() - i,
    {
        push_escaped(&mut out, v[i]);
        proof {
            assert(v@.take(i + 1 as int) =~= v@.take(i as int).push(v@[i as int]));
            lemma_json_escaped_push(v@.take(i as int), v@[i as int]);
        }
        i = i + 1;
    }
    proof {
        assert(v@.take(v@.len() as int) =~= v@);
    }
    out
}

/// The wire form of chat content: a JSON object whose discriminant field
/// names the variant and whose body carries the channel and the text.
pub open spec fn content_wire(id: int, text: Seq<char>) -> Seq<char> {
    "{\"Message\":{\"channel_id\":"@ + dec_digits(id) + ",\"content\":\""@ + json_escaped(text)
        + "\"}}"@
}

/// The wire form of the keep-alive variant.
pub open spec fn keepalive_wire() -> Seq<char> {
    "{\"KeepAlive\":null}"@
}

/// The wire form of an outbound message.
pub open spec fn wire_text(m: OutboundMessage) -> Seq<char> {
    match m {
        OutboundMessage::Content { destination_id, text } => content_wire(
            destination_id as int,
            text@,
        ),
        OutboundMessage::KeepAlive => keepalive_wire(),
    }
}

/// Serializes an outbound message to its wire form.
pub fn encode_wire(m: &OutboundMessage) -> (r: String)
    ensures
        r@ == wire_text(*m),
{
    match m {
        OutboundMessage::Content { destination_id, text } => {
            let digits = u64_decimal_chars(*destination_id);
            let digits_text = string_from_chars(&digits);
            let escaped = json_escape(&chars_vec(text.as_str()));
            let escaped_text = string_from_chars(&escaped);
            let mut s = String::from_str("{\"Message\":{\"channel_id\":");
            s.append(digits_text.as_str());
            s.append(",\"content\":\"");
            s.append(escaped_text.as_str());
            s.append("\"}}");
            proof {
                assert(s@ =~= wire_text(*m));
            }
            s
        },
        OutboundMessage::KeepAlive => String::from_str("{\"KeepAlive\":null}"),
    }
}

} // verus!
