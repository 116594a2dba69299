//! Framed messages: a four-byte little-endian length prefix, then the payload.

use vstd::prelude::*;

verus! {

/// Number of bytes in the length prefix of a framed message.
pub const MSG_SIZE: usize = 4;

/// The largest payload length that the prefix can carry.
pub const MAX_PAYLOAD: usize = 0xFFFF_FFFF;

/// The four little-endian bytes of `value`, for `0 <= value < 2^32`.
pub open spec fn le_bytes(value: int) -> Seq<u8> {
    seq![
        (value % 256) as u8,
        (value / 256 % 256) as u8,
        (value / 65536 % 256) as u8,
        (value / 16777216 % 256) as u8,
    ]
}

/// The number that four little-endian bytes stand for.
pub open spec fn le_value(bytes: Seq<u8>) -> int {
    bytes[0] + 256 * bytes[1] + 65536 * bytes[2] + 16777216 * bytes[3]
}

/// The unsigned number with the same 32 bits as `num` in two's complement.
pub open spec fn unsigned(num: i32) -> int {
    if num >= 0 {
        num as int
    } else {
        num + 0x1_0000_0000
    }
}

/// The four bytes of `num`, least significant first.
pub fn i32_to_bytes(num: i32) -> (bytes: Vec<u8>)
    ensures
        bytes@ == le_bytes(unsigned(num)),
{
    let bits: u32 = #[verifier::truncate] (num as u32);
    let b0: u8 = #[verifier::truncate] ((bits & 0xFF) as u8);
    let b1: u8 = #[verifier::truncate] (((bits >> 8) & 0xFF) as u8);
    let b2: u8 = #[verifier::truncate] (((bits >> 16) & 0xFF) as u8);
    let b3: u8 = #[verifier::truncate] (((bits >> 24) & 0xFF) as u8);
    proof {
        assert(num >= 0 ==> bits == num) by (bit_vector)
            requires
                bits == num as u32,
        ;
        assert(num < 0 ==> bits == num + 0x1_0000_0000) by (bit_vector)
            requires
                bits == num as u32,
        ;
        assert(b0 == bits % 256 && b1 == bits / 256 % 256 && b2 == bits / 65536 % 256 && b3 == bits
            / 16777216 % 256) by (bit_vector)
            requires
                b0 == (bits & 0xFF) as u8,
                b1 == ((bits >> 8) & 0xFF) as u8,
                b2 == ((bits >> 16) & 0xFF) as u8,
                b3 == ((bits >> 24) & 0xFF) as u8,
        ;
    }
    let mut bytes: Vec<u8> = Vec::new();
    bytes.push(b0);
    bytes.push(b1);
    bytes.push(b2);
    bytes.push(b3);
    bytes
}

/// The framed message that carries `payload`: the length of the payload in
/// four little-endian bytes, then the payload.
pub open spec fn framed(payload: Seq<u8>) -> Seq<u8> {
    le_bytes(payload.len() as int) + payload
}

/// What follows the length prefix in `stream`; nothing where the stream is
/// shorter than a prefix.
pub open spec fn unframed(stream: Seq<u8>) -> Seq<u8> {
    if stream.len() >= MSG_SIZE {
        stream.skip(MSG_SIZE as int)
    } else {
        Seq::empty()
    }
}

/// Frames `payload`.
pub fn frame(payload: &[u8]) -> (message: Vec<u8>)
    requires
        payload@.len() <= MAX_PAYLOAD,
    ensures
        message@ == framed(payload@),
{
    let length: u32 = payload.len() as u32;
    let signed: i32 = #[verifier::truncate] (length as i32);
    proof {
        assert(signed >= 0 ==> signed == length) by (bit_vector)
            requires
                signed == length as i32,
        ;
        assert(signed < 0 ==> signed + 0x1_0000_0000 == length) by (bit_vector)
            requires
                signed == length as i32,
        ;
    }
    let mut message: Vec<u8> = i32_to_bytes(signed);
    message.extend_from_slice(payload);
    message
}

/// The payload of a framed reply: the stream without its first four bytes,
/// which are not looked at.
pub fn payload(stream: &[u8]) -> (rest: &[u8])
    ensures
        rest@ == unframed(stream@),
{
    if stream.len() >= MSG_SIZE {
        vstd::slice::slice_subrange(stream, MSG_SIZE, stream.len())
    } else {
        vstd::slice::slice_subrange(stream, 0, 0)
    }
}

} // verus!
