use vstd::prelude::*;
use vstd::string::StrSliceExecFns;
use vstd::utf8::{encode_utf8, decode_utf8};

verus! {

/// What the response decoder reads of a JSON value.
///
/// The protocol bodies this client interprets are flat: the decoder looks
/// at the top-level entries of an object and reads numbers and strings
/// from them.  A value it does not interpret — an array, a nested object,
/// or a number that fits neither `u64` nor `i64` — is carried through
/// unread, as its own JSON text, in the `Raw` variant.
#[derive(Debug, Clone, PartialEq, Eq)]
pub enum JsonValue {
    /// The JSON value `null`.
    Null,
    /// A JSON boolean.
    Bool(bool),
    /// A JSON number that fits an unsigned 64-bit integer.
    UInt(u64),
    /// A negative JSON integer.
    Int(i64),
    /// A JSON string.
    Text(String),
    /// Any other JSON value, held as its own JSON text.
    Raw(String),
}

/// The mathematical shape of a [`JsonValue`]: strings as character
/// sequences.
pub enum JsonV {
    Null,
    Bool(bool),
    UInt(u64),
    Int(i64),
    Text(Seq<char>),
    Raw(Seq<char>),
}

impl View for JsonValue {
    type V = JsonV;

    open spec fn view(&self) -> JsonV {
        match self {
            JsonValue::Null => JsonV::Null,
            JsonValue::Bool(b) => JsonV::Bool(*b),
            JsonValue::UInt(u) => JsonV::UInt(*u),
            JsonValue::Int(i) => JsonV::Int(*i),
            JsonValue::Text(s) => JsonV::Text(s@),
            JsonValue::Raw(s) => JsonV::Raw(s@),
        }
    }
}

/// The mathematical shape of a parsed top-level JSON object: its entries
/// in the order the parser hands them over.
pub open spec fn obj_view(entries: Seq<(String, JsonValue)>) -> Seq<(Seq<char>, JsonV)> {
    entries.map_values(|p: (String, JsonValue)| (p.0@, p.1@))
}

/// The top-level object that the JSON parser reads from the given bytes:
/// `None` when the bytes are not a JSON object, otherwise its entries
/// with each key once (the last occurrence of a duplicate wins), in the
/// order the parser yields them.
pub uninterp spec fn json_object_of(bytes: Seq<u8>) -> Option<Seq<(Seq<char>, JsonV)>>;

/// Relies on `serde_json::from_slice` for `serde_json::Map`: parses the
/// bytes as a JSON document and fails on anything its map deserializer
/// does not take — any document that is not an object, except that it
/// also admits `null` and reads it as the empty object; each entry's
/// value is mirrored into the [`JsonValue`] variant that holds what the
/// decoder reads of it.  The `Err` text is the parser's own message.
#[verifier::external_body]
pub(crate) fn parse_object(bytes: &Vec<u8>) -> (r: Result<Vec<(String, JsonValue)>, String>)
    ensures
        r is Ok <==> json_object_of(bytes@) is Some,
        r is Ok ==> obj_view(r.unwrap()@) == json_object_of(bytes@).unwrap(),
{
    match serde_json::from_slice::<serde_json::Map<String, serde_json::Value>>(bytes.as_slice()) {
        Ok(entries) => Ok(entries.into_iter().map(|(k, v)| (k, from_serde_value(v))).collect()),
        Err(e) => Err(e.to_string()),
    }
}

#[verifier::external_type_specification]
#[verifier::external_body]
pub struct ExValue(serde_json::Value);

/// Relies on `serde_json::Value` and its `as_u64` / `as_i64` accessors:
/// mirrors one parsed JSON value into the [`JsonValue`] variant that
/// holds it, keeping uninterpreted values as their JSON text.
#[verifier::external_body]
fn from_serde_value(v: serde_json::Value) -> JsonValue {
    match v {
        serde_json::Value::Null => JsonValue::Null,
        serde_json::Value::Bool(b) => JsonValue::Bool(b),
        serde_json::Value::Number(n) => match (n.as_u64(), n.as_i64()) {
            (Some(u), _) => JsonValue::UInt(u),
            (None, Some(i)) => JsonValue::Int(i),
            (None, None) => JsonValue::Raw(n.to_string()),
        },
        serde_json::Value::String(s) => JsonValue::Text(s),
        other => JsonValue::Raw(other.to_string()),
    }
}

/// The UTF-8 bytes of a string literal; the JSON bodies below are stated
/// as concatenations of these.
pub open spec fn lit_bytes(s: &str) -> Seq<u8> {
    encode_utf8(s@)
}

/// Lower-case hexadecimal digit of a value below 16.
pub open spec fn hex_digit(n: u8) -> u8 {
    if n < 10 {
        (0x30 + n) as u8
    } else {
        (0x57 + n) as u8
    }
}

/// How one byte of a JSON string's content is written between the
/// quotes: quote and backslash get a backslash, control bytes become a
/// `\u00..` escape, and every other byte — UTF-8 continuation bytes
/// included — stands as it is.
pub open spec fn escape_byte(b: u8) -> Seq<u8> {
    if b == 0x22 {
        seq![0x5cu8, 0x22u8]
    } else if b == 0x5c {
        seq![0x5cu8, 0x5cu8]
    } else if b < 0x20 {
        seq![0x5cu8, 0x75u8, 0x30u8, 0x30u8, hex_digit(b / 16), hex_digit(b % 16)]
    } else {
        seq![b]
    }
}

/// The escaped form of a whole string content, byte by byte.
pub open spec fn escape_bytes(s: Seq<u8>) -> Seq<u8>
    decreases s.len(),
{
    if s.len() == 0 {
        Seq::empty()
    } else {
        escape_byte(s[0]) + escape_bytes(s.drop_first())
    }
}

/// A JSON string: the escaped content between two quotes.
pub open spec fn quoted(s: Seq<u8>) -> Seq<u8> {
    seq![0x22u8] + escape_bytes(s) + seq![0x22u8]
}

/// The decimal digits of a number, most significant first.
pub open spec fn dec_bytes(n: nat) -> Seq<u8>
    decreases n,
{
    if n < 10 {
        seq![(0x30 + n) as u8]
    } else {
        dec_bytes(n / 10) + seq![(0x30 + (n % 10)) as u8]
    }
}

proof fn lemma_escape_bytes_push(s: Seq<u8>, b: u8)
    ensures
        escape_bytes(s.push(b)) == escape_bytes(s) + escape_byte(b),
    decreases s.len(),
{
    if s.len() == 0 {
        assert(s.push(b).drop_first() =~= Seq::<u8>::empty());
        assert(s.push(b)[0] == b);
        assert(escape_bytes(Seq::<u8>::empty()) == Seq::<u8>::empty());
        assert(escape_bytes(s.push(b)) == escape_byte(b) + escape_bytes(Seq::<u8>::empty()));
        assert(escape_byte(b) + Seq::<u8>::empty() =~= escape_byte(b));
        assert(escape_bytes(s) + escape_byte(b) =~= escape_byte(b));
    } else {
        assert(s.push(b).drop_first() =~= s.drop_first().push(b));
        lemma_escape_bytes_push(s.drop_first(), b);
        assert(escape_bytes(s.push(b)) == escape_byte(s[0]) + (escape_bytes(s.drop_first())
            + escape_byte(b)));
        assert(escape_byte(s[0]) + (escape_bytes(s.drop_first()) + escape_byte(b)) =~= (escape_byte(
            s[0],
        ) + escape_bytes(s.drop_first())) + escape_byte(b));
    }
}

fn hex_digit_exec(n: u8) -> (r: u8)
    requires
        n < 16,
    ensures
        r == hex_digit(n),
{
    if n < 10 {
        0x30 + n
    } else {
        0x57 + n
    }
}

/// Appends the UTF-8 bytes of a string slice.
pub fn push_lit(out: &mut Vec<u8>, s: &str)
    ensures
        final(out)@ == old(out)@ + lit_bytes(s),
{
    let mut bytes = s.as_bytes_vec();
    out.append(&mut bytes);
}

/// Appends the escaped form of a string content given as bytes.
pub fn push_escaped(out: &mut Vec<u8>, s: &Vec<u8>)
    ensures
        final(out)@ == old(out)@ + escape_bytes(s@),
{
    let mut i: usize = 0;
    while i < s.len()
        invariant
            i <= s@.len(),
            out@ == old(out)@ + escape_bytes(s@.take(i as int)),
        decreases s@.len() - i,
    {
        let b = s[i];
        proof {
            assert(s@.take(i + 1) =~= s@.take(i as int).push(b));
            lemma_escape_bytes_push(s@.take(i as int), b);
        }
        if b == 0x22 {
            out.push(0x5c);
            out.push(0x22);
        } else if b == 0x5c {
            out.push(0x5c);
            out.push(0x5c);
        } else if b < 0x20 {
            out.push(0x5c);
            out.push(0x75);
            out.push(0x30);
            out.push(0x30);
            out.push(hex_digit_exec(b / 16));
            out.push(hex_digit_exec(b % 16));
        } else {
            out.push(b);
        }
        proof {
            assert(out@ =~= old(out)@ + escape_bytes(s@.take(i + 1)));
        }
        i = i + 1;
    }
    proof {
        assert(s@.take(s@.len() as int) =~= s@);
    }
}

/// Appends a quoted, escaped JSON string whose content are the UTF-8
/// bytes of the given string slice.
pub fn push_quoted(out: &mut Vec<u8>, s: &str)
    ensures
        final(out)@ == old(out)@ + quoted(lit_bytes(s)),
{
    out.push(0x22);
    let bytes = s.as_bytes_vec();
    push_escaped(out, &bytes);
    out.push(0x22);
    proof {
        assert(out@ =~= old(out)@ + quoted(lit_bytes(s)));
    }
}

/// Appends the decimal digits of a 32-bit number.
pub fn push_u32_dec(out: &mut Vec<u8>, n: u32)
    ensures
        final(out)@ == old(out)@ + dec_bytes(n as nat),
    decreases n,
{
    if n >= 10 {
        push_u32_dec(out, n / 10);
    }
    out.push(0x30 + (n % 10) as u8);
    proof {
        assert(out@ =~= old(out)@ + dec_bytes(n as nat));
    }
}

/// Whether two string slices hold the same characters.
pub fn str_eq(a: &str, b: &str) -> (r: bool)
    ensures
        r == (a@ == b@),
{
    let av = a.as_bytes_vec();
    let bv = b.as_bytes_vec();
    proof {
        broadcast use vstd::utf8::encode_utf8_decode_utf8;

        assert(decode_utf8(encode_utf8(a@)) == a@);
        assert(decode_utf8(encode_utf8(b@)) == b@);
    }
    if av.len() != bv.len() {
        return false;
    }
    let mut i: usize = 0;
    while i < av.len()
        invariant
            i <= av@.len(),
            av@.len() == bv@.len(),
            av@ == encode_utf8(a@),
            bv@ == encode_utf8(b@),
            decode_utf8(encode_utf8(a@)) == a@,
            decode_utf8(encode_utf8(b@)) == b@,
            forall|j: int| 0 <= j < i ==> av@[j] == bv@[j],
        decreases av@.len() - i,
    {
        if av[i] != bv[i] {
            return false;
        }
        i = i + 1;
    }
    proof {
        assert(av@ =~= bv@);
    }
    true
}

} // verus!
