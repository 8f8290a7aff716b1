//! The framing protocol: an eight-byte header, then the payload.
//!
//! The header holds the opcode and the payload's length, each as a
//! little-endian `u32`. The payload follows at once and is exactly as long as
//! the header says.

use vstd::prelude::*;

verus! {

/// The length of a frame header in bytes.
pub const HEADER_LEN: usize = 8;

/// One message unit on the wire.
#[derive(Clone, Debug, PartialEq, Eq)]
pub struct Frame {
    pub opcode: u32,
    pub payload: Vec<u8>,
}

/// The four bytes of `x`, least significant first.
pub open spec fn le_bytes(x: u32) -> Seq<u8> {
    seq![
        (x % 256) as u8,
        ((x / 256) % 256) as u8,
        ((x / 65536) % 256) as u8,
        (x / 16777216) as u8,
    ]
}

/// The number whose little-endian bytes are the first four of `bytes`.
pub open spec fn le_value(bytes: Seq<u8>) -> int
    recommends
        bytes.len() >= 4,
{
    bytes[0] + bytes[1] * 256 + bytes[2] * 65536 + bytes[3] * 16777216
}

/// The header of a frame with the given opcode and payload length.
pub open spec fn spec_header(opcode: u32, length: u32) -> Seq<u8> {
    le_bytes(opcode) + le_bytes(length)
}

/// The bytes of a frame: its header, then its payload.
pub open spec fn spec_encode(opcode: u32, payload: Seq<u8>) -> Seq<u8>
    recommends
        payload.len() <= u32::MAX,
{
    spec_header(opcode, payload.len() as u32) + payload
}

/// The opcode and payload length that a header holds.
pub open spec fn spec_decode_header(header: Seq<u8>) -> (u32, u32)
    recommends
        header.len() == HEADER_LEN,
{
    (le_value(header.subrange(0, 4)) as u32, le_value(header.subrange(4, 8)) as u32)
}

/// The frame that `bytes` hold, if they are a header followed by exactly the
/// payload that the header announces.
pub open spec fn spec_decode(bytes: Seq<u8>) -> Option<(u32, Seq<u8>)> {
    if bytes.len() >= HEADER_LEN && spec_decode_header(bytes.subrange(0, 8)).1 == bytes.len()
        - HEADER_LEN {
        Some((spec_decode_header(bytes.subrange(0, 8)).0, bytes.subrange(8, bytes.len() as int)))
    } else {
        None
    }
}

/// Reading back the little-endian bytes of a number gives the number.
pub proof fn lemma_le_value_of_bytes(x: u32)
    ensures
        le_bytes(x).len() == 4,
        le_value(le_bytes(x)) == x,
{
}

/// A header decodes to the opcode and length it was made from.
pub proof fn lemma_decode_header_of_header(opcode: u32, length: u32)
    ensures
        spec_header(opcode, length).len() == HEADER_LEN,
        spec_decode_header(spec_header(opcode, length)) == (opcode, length),
{
    let header = spec_header(opcode, length);
    lemma_le_value_of_bytes(opcode);
    lemma_le_value_of_bytes(length);
    assert(header.subrange(0, 4) =~= le_bytes(opcode));
    assert(header.subrange(4, 8) =~= le_bytes(length));
}

/// Decoding an encoded frame gives back the opcode and the payload, for every
/// opcode and every payload whose length a header can hold, the empty one
/// included.
pub proof fn lemma_decode_of_encode(opcode: u32, payload: Seq<u8>)
    requires
        payload.len() <= u32::MAX,
    ensures
        spec_decode(spec_encode(opcode, payload)) == Some((opcode, payload)),
{
    let length = payload.len() as u32;
    let bytes = spec_encode(opcode, payload);
    lemma_decode_header_of_header(opcode, length);
    assert(bytes.subrange(0, 8) =~= spec_header(opcode, length));
    assert(bytes.subrange(8, bytes.len() as int) =~= payload);
}

/// Four bytes are the little-endian bytes of the number read from them.
pub proof fn lemma_le_bytes_of_value(bytes: Seq<u8>)
    requires
        bytes.len() == 4,
    ensures
        0 <= le_value(bytes) <= u32::MAX,
        le_bytes(le_value(bytes) as u32) == bytes,
{
    let v = le_value(bytes);
    let b0 = bytes[0] as int;
    let b1 = bytes[1] as int;
    let b2 = bytes[2] as int;
    let b3 = bytes[3] as int;
    assert(v == b0 + 256 * (b1 + 256 * (b2 + 256 * b3)));
    assert(v % 256 == b0);
    assert(v / 256 == b1 + 256 * (b2 + 256 * b3));
    assert((v / 256) % 256 == b1);
    assert(v / 65536 == b2 + 256 * b3);
    assert((v / 65536) % 256 == b2);
    assert(v / 16777216 == b3);
    assert(le_bytes(v as u32) =~= bytes);
}

/// A frame that decodes is the encoding of what it decodes to: no two byte
/// strings stand for the same frame.
pub proof fn lemma_encode_of_decode(bytes: Seq<u8>)
    requires
        spec_decode(bytes) is Some,
    ensures
        spec_decode(bytes) matches Some((opcode, payload)) && payload.len() <= u32::MAX
            && spec_encode(opcode, payload) == bytes,
{
    let (opcode, payload) = spec_decode(bytes).unwrap();
    let header = bytes.subrange(0, 8);
    lemma_le_bytes_of_value(header.subrange(0, 4));
    lemma_le_bytes_of_value(header.subrange(4, 8));
    assert(spec_header(opcode, payload.len() as u32) =~= header);
    assert(spec_encode(opcode, payload) =~= bytes);
}

fn push_le(bytes: &mut Vec<u8>, x: u32)
    ensures
        final(bytes)@ == old(bytes)@ + le_bytes(x),
{
    bytes.push((x % 256) as u8);
    bytes.push(((x / 256) % 256) as u8);
    bytes.push(((x / 65536) % 256) as u8);
    bytes.push((x / 16777216) as u8);
    assert(bytes@ =~= old(bytes)@ + le_bytes(x));
}

fn read_le(bytes: &[u8], at: usize) -> (x: u32)
    requires
        at + 4 <= bytes@.len(),
    ensures
        x == le_value(bytes@.subrange(at as int, at + 4)),
{
    let b0: u32 = bytes[at] as u32;
    let b1: u32 = bytes[at + 1] as u32;
    let b2: u32 = bytes[at + 2] as u32;
    let b3: u32 = bytes[at + 3] as u32;
    b0 + b1 * 256 + b2 * 65536 + b3 * 16777216
}

/// The bytes to put on the wire for one frame.
pub fn encode_frame(opcode: u32, payload: &[u8]) -> (bytes: Vec<u8>)
    requires
        payload@.len() <= u32::MAX,
    ensures
        bytes@ == spec_encode(opcode, payload@),
{
    let mut bytes: Vec<u8> = Vec::new();
    push_le(&mut bytes, opcode);
    push_le(&mut bytes, payload.len() as u32);
    let mut i: usize = 0;
    while i < payload.len()
        invariant
            i <= payload@.len(),
            bytes@ == spec_header(opcode, payload@.len() as u32) + payload@.subrange(0, i as int),
        decreases payload@.len() - i,
    {
        bytes.push(payload[i]);
        i += 1;
    }
    assert(payload@.subrange(0, i as int) =~= payload@);
    bytes
}

/// The opcode and the payload length of a header, or `None` when `header`
/// is not eight bytes long.
pub fn decode_header(header: &[u8]) -> (fields: Option<(u32, u32)>)
    ensures
        header@.len() == HEADER_LEN ==> fields == Some(spec_decode_header(header@)),
        header@.len() != HEADER_LEN ==> fields is None,
{
    if header.len() != HEADER_LEN {
        return None;
    }
    let opcode: u32 = read_le(header, 0);
    let length: u32 = read_le(header, 4);
    Some((opcode, length))
}

/// The frame that `bytes` hold. `None` when they are too short for a header,
/// or when the rest is shorter or longer than the header announces.
pub fn decode_frame(bytes: &[u8]) -> (frame: Option<Frame>)
    ensures
        match spec_decode(bytes@) {
            Some((opcode, payload)) => frame matches Some(f) && f.opcode == opcode && f.payload@
                == payload,
            None => frame is None,
        },
{
    if bytes.len() < HEADER_LEN {
        return None;
    }
    let opcode: u32 = read_le(bytes, 0);
    let length: u32 = read_le(bytes, 4);
    assert(bytes@.subrange(0, 8).subrange(0, 4) =~= bytes@.subrange(0, 4));
    assert(bytes@.subrange(0, 8).subrange(4, 8) =~= bytes@.subrange(4, 8));
    if bytes.len() - HEADER_LEN != length as usize {
        return None;
    }
    let mut payload: Vec<u8> = Vec::new();
    let mut i: usize = HEADER_LEN;
    while i < bytes.len()
        invariant
            HEADER_LEN <= i <= bytes@.len(),
            payload@ == bytes@.subrange(8, i as int),
        decreases bytes@.len() - i,
    {
        payload.push(bytes[i]);
        i += 1;
        assert(payload@ =~= bytes@.subrange(8, i as int));
    }
    Some(Frame { opcode, payload })
}

} // verus!
