use vstd::prelude::*;
use crate::errors::Error;

verus! {

/// The four little-endian bytes of a 32-bit value, least significant
/// byte first.
pub open spec fn le_bytes(x: u32) -> Seq<u8> {
    seq![
        (x % 256) as u8,
        ((x / 256) % 256) as u8,
        ((x / 65536) % 256) as u8,
        ((x / 16777216) % 256) as u8,
    ]
}

/// The 32-bit value read from four little-endian bytes.
pub open spec fn u32_from_le(b0: u8, b1: u8, b2: u8, b3: u8) -> u32 {
    ((b0 as int) + 256 * (b1 as int) + 65536 * (b2 as int) + 16777216 * (b3 as int)) as u32
}

/// The 8-byte frame header: opcode then payload length, each as four
/// little-endian bytes.
pub open spec fn header_bytes(opcode: u32, length: u32) -> Seq<u8> {
    le_bytes(opcode) + le_bytes(length)
}

/// Reading back the four little-endian bytes of any 32-bit value yields
/// that value; hence `unpack` inverts `pack` on every `(opcode, length)`
/// pair representable in 32 bits.
pub proof fn lemma_header_round_trip(opcode: u32, length: u32)
    ensures
        header_bytes(opcode, length).len() == 8,
        u32_from_le(
            header_bytes(opcode, length)[0],
            header_bytes(opcode, length)[1],
            header_bytes(opcode, length)[2],
            header_bytes(opcode, length)[3],
        ) == opcode,
        u32_from_le(
            header_bytes(opcode, length)[4],
            header_bytes(opcode, length)[5],
            header_bytes(opcode, length)[6],
            header_bytes(opcode, length)[7],
        ) == length,
{
    lemma_le_round_trip(opcode);
    lemma_le_round_trip(length);
    assert(header_bytes(opcode, length)[0] == le_bytes(opcode)[0]);
    assert(header_bytes(opcode, length)[1] == le_bytes(opcode)[1]);
    assert(header_bytes(opcode, length)[2] == le_bytes(opcode)[2]);
    assert(header_bytes(opcode, length)[3] == le_bytes(opcode)[3]);
    assert(header_bytes(opcode, length)[4] == le_bytes(length)[0]);
    assert(header_bytes(opcode, length)[5] == le_bytes(length)[1]);
    assert(header_bytes(opcode, length)[6] == le_bytes(length)[2]);
    assert(header_bytes(opcode, length)[7] == le_bytes(length)[3]);
}

proof fn lemma_le_round_trip(x: u32)
    ensures
        u32_from_le(le_bytes(x)[0], le_bytes(x)[1], le_bytes(x)[2], le_bytes(x)[3]) == x,
{
    assert((x % 256) + 256 * ((x / 256) % 256) + 65536 * ((x / 65536) % 256) + 16777216 * ((x
        / 16777216) % 256) == x) by (bit_vector);
}

/// Encodes a frame header: opcode and payload length as eight
/// little-endian bytes.
pub fn pack(opcode: u32, length: u32) -> (r: Vec<u8>)
    ensures
        r@ == header_bytes(opcode, length),
{
    let mut out: Vec<u8> = Vec::new();
    push_le(&mut out, opcode);
    push_le(&mut out, length);
    proof {
        assert(out@ =~= header_bytes(opcode, length));
    }
    out
}

fn push_le(out: &mut Vec<u8>, x: u32)
    ensures
        final(out)@ == old(out)@ + le_bytes(x),
{
    out.push((x % 256) as u8);
    out.push(((x / 256) % 256) as u8);
    out.push(((x / 65536) % 256) as u8);
    out.push(((x / 16777216) % 256) as u8);
    proof {
        assert(out@ =~= old(out)@ + le_bytes(x));
    }
}

/// Decodes a frame header.  Returns the `(opcode, length)` pair read from
/// the first eight bytes, or `MalformedHeader` when fewer than eight
/// bytes are supplied.
pub fn unpack(bytes: &Vec<u8>) -> (r: Result<(u32, u32), Error>)
    ensures
        bytes@.len() < 8 ==> r == Err::<(u32, u32), Error>(Error::MalformedHeader),
        bytes@.len() >= 8 ==> r == Ok::<(u32, u32), Error>(
            (
                u32_from_le(bytes@[0], bytes@[1], bytes@[2], bytes@[3]),
                u32_from_le(bytes@[4], bytes@[5], bytes@[6], bytes@[7]),
            ),
        ),
{
    if bytes.len() < 8 {
        return Err(Error::MalformedHeader);
    }
    let opcode = u32_from_le_exec(bytes[0], bytes[1], bytes[2], bytes[3]);
    let length = u32_from_le_exec(bytes[4], bytes[5], bytes[6], bytes[7]);
    Ok((opcode, length))
}

fn u32_from_le_exec(b0: u8, b1: u8, b2: u8, b3: u8) -> (r: u32)
    ensures
        r == u32_from_le(b0, b1, b2, b3),
{
    (b0 as u32) + 256 * (b1 as u32) + 65536 * (b2 as u32) + 16777216 * (b3 as u32)
}

} // verus!
