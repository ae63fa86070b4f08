//! The file event that travels between the watcher, the network and the web UI,
//! and its JSON wire form.
use vstd::prelude::*;
use vstd::utf8::{encode_utf8, is_ascii_chars, is_ascii_chars_encode_utf8};

verus! {

/// A file system event that can be broadcast or received.
///
/// `op` is one of "CREATE", "WRITE", "REMOVE", "RENAME" for every event that
/// the watcher produces.
#[derive(Debug)]
pub struct Event {
    /// The path of the file or directory affected by the event.
    pub path: String,
    /// The operation performed.
    pub op: String,
}

/// The operation of a created file (or of a file renamed into place).
pub const OP_CREATE: &'static str = "CREATE";

/// The operation of a file whose contents or metadata changed.
pub const OP_WRITE: &'static str = "WRITE";

/// The operation of a removed file (or of a file renamed away).
pub const OP_REMOVE: &'static str = "REMOVE";

/// The operation of a rename seen from both ends.
pub const OP_RENAME: &'static str = "RENAME";

/// The operations that an event can carry.
pub open spec fn is_known_op(op: Seq<char>) -> bool {
    op == OP_CREATE@ || op == OP_WRITE@ || op == OP_REMOVE@ || op == OP_RENAME@
}

impl Clone for Event {
    fn clone(&self) -> (r: Self)
        ensures
            r == *self,
    {
        Event { path: self.path.clone(), op: self.op.clone() }
    }
}

/// The error type of `serde_json`; carried, never inspected.
#[verifier::external_type_specification]
#[verifier::external_body]
pub struct ExJsonError(serde_json::Error);

/// The lower-case hexadecimal digit for `n` (0 to 15).
pub open spec fn hex_digit(n: int) -> char {
    seq!['0', '1', '2', '3', '4', '5', '6', '7', '8', '9', 'a', 'b', 'c', 'd', 'e', 'f'][n]
}

/// How a character stands inside a JSON string literal written by
/// `serde_json`: `"` and `\` are escaped with a backslash, the control
/// characters U+0008, U+0009, U+000A, U+000C and U+000D as `\b`, `\t`, `\n`,
/// `\f` and `\r`, the other control characters below U+0020 as `\u00XX` with
/// lower-case hex digits, and every other character stands for itself.
pub open spec fn json_escape_char(c: char) -> Seq<char> {
    if c == '"' {
        seq!['\\', '"']
    } else if c == '\\' {
        seq!['\\', '\\']
    } else if c == '\u{08}' {
        seq!['\\', 'b']
    } else if c == '\t' {
        seq!['\\', 't']
    } else if c == '\n' {
        seq!['\\', 'n']
    } else if c == '\u{0c}' {
        seq!['\\', 'f']
    } else if c == '\r' {
        seq!['\\', 'r']
    } else if (c as u32) < 0x20 {
        seq!['\\', 'u', '0', '0', hex_digit((c as u32 as int) / 16), hex_digit((c as u32 as int) % 16)]
    } else {
        seq![c]
    }
}

/// The escaped characters of a string, in order.
pub open spec fn json_escape(s: Seq<char>) -> Seq<char>
    decreases s.len(),
{
    if s.len() == 0 {
        seq![]
    } else {
        json_escape_char(s[0]) + json_escape(s.drop_first())
    }
}

/// The JSON string literal for a string: its escaped characters in quotes.
pub open spec fn json_string_literal(s: Seq<char>) -> Seq<char> {
    seq!['"'] + json_escape(s) + seq!['"']
}

/// Calls `serde_json::to_vec` on a string slice.
///
/// Claimed: the call succeeds (serializing a `str` into a `Vec<u8>` has no
/// failing path in `serde_json`'s source), and the bytes are the UTF-8
/// encoding of the JSON string literal that `json_string_literal` describes
/// (`format_escaped_str`, its `ESCAPE` table and `write_char_escape` of the
/// compact formatter).
#[verifier::external_body]
fn json_string_bytes(s: &str) -> (r: Result<Vec<u8>, serde_json::Error>)
    ensures
        r is Ok,
        r matches Ok(b) ==> b@ == encode_utf8(json_string_literal(s@)),
{
    serde_json::to_vec(s)
}

/// Calls `serde_json::to_string` on a string slice.
///
/// Claimed: the call succeeds, and the text is the JSON string literal that
/// `json_string_literal` describes (`to_string` is `to_vec` with the bytes
/// taken as a `String`).
#[verifier::external_body]
fn json_string_text(s: &str) -> (r: Result<String, serde_json::Error>)
    ensures
        r is Ok,
        r matches Ok(t) ==> t@ == json_string_literal(s@),
{
    serde_json::to_string(s)
}

/// `{"path":`
pub open spec fn object_open_bytes() -> Seq<u8> {
    seq![123u8, 34u8, 112u8, 97u8, 116u8, 104u8, 34u8, 58u8]
}

/// `,"op":`
pub open spec fn op_key_bytes() -> Seq<u8> {
    seq![44u8, 34u8, 111u8, 112u8, 34u8, 58u8]
}

/// `}`
pub open spec fn object_close_bytes() -> Seq<u8> {
    seq![125u8]
}

/// A JSON object with the members `path` and `op`, in that order, built from the
/// already encoded member values.
pub open spec fn event_object(path_json: Seq<u8>, op_json: Seq<u8>) -> Seq<u8> {
    object_open_bytes() + path_json + op_key_bytes() + op_json + object_close_bytes()
}

/// The compact JSON encoding of an event with the given path and operation:
/// `{"path":<path>,"op":<op>}`, each value a JSON string literal, as bytes.
pub open spec fn event_json(path: Seq<char>, op: Seq<char>) -> Seq<u8> {
    event_object(encode_utf8(json_string_literal(path)), encode_utf8(json_string_literal(op)))
}

/// The same encoding as text.
pub open spec fn event_json_text(path: Seq<char>, op: Seq<char>) -> Seq<char> {
    event_object_text(json_string_literal(path), json_string_literal(op))
}

fn push_all(out: &mut Vec<u8>, bytes: &Vec<u8>)
    ensures
        final(out)@ == old(out)@ + bytes@,
{
    let mut i: usize = 0;
    while i < bytes.len()
        invariant
            i <= bytes@.len(),
            out@ == old(out)@ + bytes@.subrange(0, i as int),
        decreases bytes@.len() - i,
    {
        out.push(bytes[i]);
        i = i + 1;
    }
    assert(bytes@.subrange(0, bytes@.len() as int) =~= bytes@);
}

/// Frames two encoded JSON values as the object `{"path":..,"op":..}`.
pub fn frame_event_object(path_json: &Vec<u8>, op_json: &Vec<u8>) -> (r: Vec<u8>)
    ensures
        r@ == event_object(path_json@, op_json@),
{
    let mut out: Vec<u8> = Vec::new();
    out.push(123u8);
    out.push(34u8);
    out.push(112u8);
    out.push(97u8);
    out.push(116u8);
    out.push(104u8);
    out.push(34u8);
    out.push(58u8);
    assert(out@ =~= object_open_bytes());
    push_all(&mut out, path_json);
    out.push(44u8);
    out.push(34u8);
    out.push(111u8);
    out.push(112u8);
    out.push(34u8);
    out.push(58u8);
    push_all(&mut out, op_json);
    out.push(125u8);
    assert(out@ =~= event_object(path_json@, op_json@));
    out
}

impl Event {
    /// The event as the compact JSON bytes that go into a datagram.
    pub fn to_json_bytes(&self) -> (r: Vec<u8>)
        ensures
            r@ == event_json(self.path@, self.op@),
    {
        let path_json = match json_string_bytes(self.path.as_str()) {
            Ok(b) => b,
            Err(_) => {
                proof {
                    assert(false);
                }
                Vec::new()
            },
        };
        let op_json = match json_string_bytes(self.op.as_str()) {
            Ok(b) => b,
            Err(_) => {
                proof {
                    assert(false);
                }
                Vec::new()
            },
        };
        frame_event_object(&path_json, &op_json)
    }
}

/// `{"path":` as characters.
pub open spec fn object_open_chars() -> Seq<char> {
    seq!['{', '"', 'p', 'a', 't', 'h', '"', ':']
}

/// `,"op":` as characters.
pub open spec fn op_key_chars() -> Seq<char> {
    seq![',', '"', 'o', 'p', '"', ':']
}

/// `}` as characters.
pub open spec fn object_close_chars() -> Seq<char> {
    seq!['}']
}

/// The object `{"path":..,"op":..}` as text, built from the already encoded
/// member values.
pub open spec fn event_object_text(path_json: Seq<char>, op_json: Seq<char>) -> Seq<char> {
    object_open_chars() + path_json + op_key_chars() + op_json + object_close_chars()
}

/// UTF-8 encoding distributes over concatenation.
pub proof fn lemma_encode_utf8_concat(a: Seq<char>, b: Seq<char>)
    ensures
        encode_utf8(a + b) == encode_utf8(a) + encode_utf8(b),
    decreases a.len(),
{
    if a.len() == 0 {
        assert(a + b =~= b);
    } else {
        lemma_encode_utf8_concat(a.drop_first(), b);
        assert((a + b).drop_first() =~= a.drop_first() + b);
        assert((a + b)[0] == a[0]);
    }
}

proof fn lemma_ascii_encoding(chars: Seq<char>, bytes: Seq<u8>)
    requires
        chars.len() == bytes.len(),
        is_ascii_chars(chars),
        forall|i: int| 0 <= i < chars.len() ==> chars[i] as u8 == #[trigger] bytes[i],
    ensures
        encode_utf8(chars) == bytes,
{
    is_ascii_chars_encode_utf8(chars);
    assert(encode_utf8(chars) =~= bytes);
}

/// The UTF-8 encoding of the text frame is the byte frame.
pub proof fn lemma_event_object_text_encoding(path_json: Seq<char>, op_json: Seq<char>)
    ensures
        encode_utf8(event_object_text(path_json, op_json))
            == event_object(encode_utf8(path_json), encode_utf8(op_json)),
{
    lemma_ascii_encoding(object_open_chars(), object_open_bytes());
    lemma_ascii_encoding(op_key_chars(), op_key_bytes());
    lemma_ascii_encoding(object_close_chars(), object_close_bytes());
    let a = object_open_chars();
    let b = path_json;
    let c = op_key_chars();
    let d = op_json;
    let e = object_close_chars();
    lemma_encode_utf8_concat(a, b);
    lemma_encode_utf8_concat(a + b, c);
    lemma_encode_utf8_concat(a + b + c, d);
    lemma_encode_utf8_concat(a + b + c + d, e);
}

/// Frames two encoded JSON values, given as text, as the object
/// `{"path":..,"op":..}`.
pub fn frame_event_text(path_json: &str, op_json: &str) -> (r: String)
    ensures
        r@ == event_object_text(path_json@, op_json@),
{
    let open = "{\"path\":";
    let key = ",\"op\":";
    let close = "}";
    proof {
        reveal_strlit("{\"path\":");
        reveal_strlit(",\"op\":");
        reveal_strlit("}");
    }
    let mut out = String::from_str(open);
    out.append(path_json);
    out.append(key);
    out.append(op_json);
    out.append(close);
    assert(out@ =~= event_object_text(path_json@, op_json@));
    out
}

impl Event {
    /// The event as the compact JSON text that goes to a WebSocket client.
    pub fn to_json_text(&self) -> (r: String)
        ensures
            r@ == event_json_text(self.path@, self.op@),
            encode_utf8(r@) == event_json(self.path@, self.op@),
    {
        let path_json = match json_string_text(self.path.as_str()) {
            Ok(t) => t,
            Err(_) => {
                proof {
                    assert(false);
                }
                String::new()
            },
        };
        let op_json = match json_string_text(self.op.as_str()) {
            Ok(t) => t,
            Err(_) => {
                proof {
                    assert(false);
                }
                String::new()
            },
        };
        let r = frame_event_text(path_json.as_str(), op_json.as_str());
        proof {
            lemma_event_object_text_encoding(path_json@, op_json@);
        }
        r
    }
}

/// The operations are the four words "CREATE", "WRITE", "REMOVE" and
/// "RENAME", and no two are the same.
pub proof fn law_operation_names()
    ensures
        OP_CREATE@ == seq!['C', 'R', 'E', 'A', 'T', 'E'],
        OP_WRITE@ == seq!['W', 'R', 'I', 'T', 'E'],
        OP_REMOVE@ == seq!['R', 'E', 'M', 'O', 'V', 'E'],
        OP_RENAME@ == seq!['R', 'E', 'N', 'A', 'M', 'E'],
        OP_CREATE@ != OP_WRITE@ && OP_CREATE@ != OP_REMOVE@ && OP_CREATE@ != OP_RENAME@,
        OP_WRITE@ != OP_REMOVE@ && OP_WRITE@ != OP_RENAME@ && OP_REMOVE@ != OP_RENAME@,
{
    reveal_strlit("CREATE");
    reveal_strlit("WRITE");
    reveal_strlit("REMOVE");
    reveal_strlit("RENAME");
    assert(OP_CREATE@ =~= seq!['C', 'R', 'E', 'A', 'T', 'E']);
    assert(OP_WRITE@ =~= seq!['W', 'R', 'I', 'T', 'E']);
    assert(OP_REMOVE@ =~= seq!['R', 'E', 'M', 'O', 'V', 'E']);
    assert(OP_RENAME@ =~= seq!['R', 'E', 'N', 'A', 'M', 'E']);
    assert(OP_CREATE@[1] != OP_RENAME@[1]);
    assert(OP_REMOVE@[2] != OP_RENAME@[2]);
    assert(OP_CREATE@[1] != OP_REMOVE@[1]);
}

/// The hexadecimal digit of `n` is the character '0' + n below ten and
/// 'a' + (n - 10) from ten to fifteen.
pub proof fn law_hex_digit(n: int)
    requires
        0 <= n < 16,
    ensures
        n < 10 ==> hex_digit(n) as u32 == 48 + n,
        10 <= n ==> hex_digit(n) as u32 == 97 + (n - 10),
{
    if n == 0 {} else if n == 1 {} else if n == 2 {} else if n == 3 {} else if n == 4 {}
    else if n == 5 {} else if n == 6 {} else if n == 7 {} else if n == 8 {} else if n == 9 {}
    else if n == 10 {} else if n == 11 {} else if n == 12 {} else if n == 13 {}
    else if n == 14 {} else {}
}

/// How one character is written inside a JSON string literal: a quote and a
/// backslash get a backslash before them; U+0008, U+0009, U+000A, U+000C and
/// U+000D become two-character escapes; every other control character below
/// U+0020 becomes a six-character `\u00XX` escape whose last two characters
/// are its code in hexadecimal; every other character stands for itself.
pub proof fn law_json_escape_char(c: char)
    ensures
        c == '"' ==> json_escape_char(c) == seq!['\\', '"'],
        c == '\\' ==> json_escape_char(c) == seq!['\\', '\\'],
        c == '\u{08}' ==> json_escape_char(c) == seq!['\\', 'b'],
        c == '\t' ==> json_escape_char(c) == seq!['\\', 't'],
        c == '\n' ==> json_escape_char(c) == seq!['\\', 'n'],
        c == '\u{0c}' ==> json_escape_char(c) == seq!['\\', 'f'],
        c == '\r' ==> json_escape_char(c) == seq!['\\', 'r'],
        (c as u32) < 0x20 && c != '\u{08}' && c != '\t' && c != '\n' && c != '\u{0c}' && c
            != '\r' ==> {
            let e = json_escape_char(c);
            &&& e.len() == 6
            &&& e[0] == '\\' && e[1] == 'u' && e[2] == '0' && e[3] == '0'
            &&& e[4] == hex_digit((c as u32 as int) / 16)
            &&& e[5] == hex_digit((c as u32 as int) % 16)
        },
        (c as u32) >= 0x20 && c != '"' && c != '\\' ==> json_escape_char(c) == seq![c],
{
}

/// Escaping works character by character: the escape of a concatenation is
/// the concatenation of the escapes, and nothing escapes to nothing.
pub proof fn law_json_escape_concat(a: Seq<char>, b: Seq<char>)
    ensures
        json_escape(Seq::<char>::empty()) == Seq::<char>::empty(),
        json_escape(a + b) == json_escape(a) + json_escape(b),
    decreases a.len(),
{
    assert(json_escape(Seq::<char>::empty()) =~= Seq::<char>::empty());
    if a.len() == 0 {
        assert(a + b =~= b);
    } else {
        law_json_escape_concat(a.drop_first(), b);
        assert((a + b).drop_first() =~= a.drop_first() + b);
        assert((a + b)[0] == a[0]);
    }
}

/// A string without quotes, backslashes or control characters is written
/// unchanged between two quotes.
pub proof fn law_json_plain_string(s: Seq<char>)
    requires
        forall|i: int|
            0 <= i < s.len() ==> (#[trigger] s[i] as u32) >= 0x20 && s[i] != '"' && s[i] != '\\',
    ensures
        json_escape(s) == s,
        json_string_literal(s) == seq!['"'] + s + seq!['"'],
    decreases s.len(),
{
    if s.len() > 0 {
        let t = s.drop_first();
        assert forall|i: int| 0 <= i < t.len() implies (#[trigger] t[i] as u32) >= 0x20 && t[i]
            != '"' && t[i] != '\\' by {
            assert(t[i] == s[i + 1]);
        }
        law_json_plain_string(t);
        law_json_escape_char(s[0]);
        assert(seq![s[0]] + t =~= s);
    } else {
        assert(json_escape(s) =~= s);
    }
}

/// A JSON string literal is a quote, the escaped characters, and a quote.
pub proof fn law_json_string_literal_shape(s: Seq<char>)
    ensures
        json_string_literal(s).len() == json_escape(s).len() + 2,
        json_string_literal(s)[0] == '"',
        json_string_literal(s).last() == '"',
        json_string_literal(s).subrange(1, json_string_literal(s).len() - 1) == json_escape(s),
{
    let l = json_string_literal(s);
    assert(l.subrange(1, l.len() - 1) =~= json_escape(s));
}

/// The byte frame of an event is `{"path":`, the path's JSON, `,"op":`, the
/// operation's JSON and `}`, whatever the lengths of the two values: the two
/// member names are "path" and "op", in that order, each value right after its
/// name.
pub proof fn law_event_object_layout(path_json: Seq<u8>, op_json: Seq<u8>)
    ensures
        ({
            let r = event_object(path_json, op_json);
            let p = path_json.len() as int;
            let o = op_json.len() as int;
            &&& r.len() == p + o + 15
            &&& r.subrange(0, 8) == seq![123u8, 34u8, 112u8, 97u8, 116u8, 104u8, 34u8, 58u8]
            &&& r.subrange(8, 8 + p) == path_json
            &&& r.subrange(8 + p, 14 + p) == seq![44u8, 34u8, 111u8, 112u8, 34u8, 58u8]
            &&& r.subrange(14 + p, 14 + p + o) == op_json
            &&& r[14 + p + o] == 125u8
        }),
{
    let r = event_object(path_json, op_json);
    let p = path_json.len() as int;
    let o = op_json.len() as int;
    assert(r.subrange(0, 8) =~= seq![123u8, 34u8, 112u8, 97u8, 116u8, 104u8, 34u8, 58u8]);
    assert(r.subrange(8, 8 + p) =~= path_json);
    assert(r.subrange(8 + p, 14 + p) =~= seq![44u8, 34u8, 111u8, 112u8, 34u8, 58u8]);
    assert(r.subrange(14 + p, 14 + p + o) =~= op_json);
}

/// The text frame of an event is `{"path":`, the path's JSON, `,"op":`, the
/// operation's JSON and `}`, whatever the lengths of the two values.
pub proof fn law_event_object_text_layout(path_json: Seq<char>, op_json: Seq<char>)
    ensures
        event_object_text(path_json, op_json) == seq!['{', '"', 'p', 'a', 't', 'h', '"', ':']
            + path_json + seq![',', '"', 'o', 'p', '"', ':'] + op_json + seq!['}'],
{
}

/// The JSON of an event: the path's string literal as the value of "path",
/// then the operation's as the value of "op"; as text, and as the UTF-8 bytes
/// of that text.
pub proof fn law_event_json(path: Seq<char>, op: Seq<char>)
    ensures
        event_json_text(path, op) == seq!['{', '"', 'p', 'a', 't', 'h', '"', ':']
            + json_string_literal(path) + seq![',', '"', 'o', 'p', '"', ':'] + json_string_literal(
            op,
        ) + seq!['}'],
        event_json(path, op) == encode_utf8(event_json_text(path, op)),
{
    lemma_event_object_text_encoding(json_string_literal(path), json_string_literal(op));
}

} // verus!
