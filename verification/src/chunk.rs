//! Chunk framing: a payload is wrapped as a big-endian length prefix, the
//! four-byte type tag, the payload itself, and a trailing checksum computed
//! over the tag and the payload.

use vstd::prelude::*;

use crate::checksum::{crc32, gen_crc, CRC_SEED};

verus! {

/// Why an encoding attempt was refused.
#[derive(Clone, Copy, Debug, PartialEq, Eq, Structural)]
pub enum EncodeError {
    /// The raster's pixel count does not equal width times height.
    InvalidRaster,
    /// A chunk payload is longer than the 32-bit length field can express.
    OversizedPayload,
}

/// A 32-bit value as four bytes, most significant first.
pub open spec fn be32(x: u32) -> Seq<u8> {
    seq![
        ((x >> 24) & 0xFF) as u8,
        ((x >> 16) & 0xFF) as u8,
        ((x >> 8) & 0xFF) as u8,
        (x & 0xFF) as u8,
    ]
}

/// The unsigned big-endian value of the first four bytes of `s`.
pub open spec fn be32_val(s: Seq<u8>) -> int {
    s[0] * 0x1000000 + s[1] * 0x10000 + s[2] * 0x100 + s[3]
}

/// Reading back the four big-endian bytes of a 32-bit value recovers it.
pub proof fn lemma_be32_roundtrip(x: u32)
    ensures
        be32(x).len() == 4,
        be32_val(be32(x)) == x,
{
    assert((((x >> 24) & 0xFF) as u8) * 0x1000000 + (((x >> 16) & 0xFF) as u8) * 0x10000 + (((x
        >> 8) & 0xFF) as u8) * 0x100 + ((x & 0xFF) as u8) == x) by (bit_vector);
}

/// A framed chunk: big-endian payload length, four-byte type tag, payload,
/// and the big-endian checksum of the tag followed by the payload.
pub open spec fn frame_bytes(tag: Seq<u8>, payload: Seq<u8>) -> Seq<u8> {
    be32(payload.len() as u32) + tag + payload + be32(crc32(tag + payload))
}

/// Appends the four big-endian bytes of `x` to `out`.
pub(crate) fn push_be32(out: &mut Vec<u8>, x: u32)
    ensures
        final(out)@ == old(out)@ + be32(x),
{
    assert((x >> 24) & 0xFF < 256 && (x >> 16) & 0xFF < 256 && (x >> 8) & 0xFF < 256 && x & 0xFF
        < 256) by (bit_vector);
    out.push(((x >> 24) & 0xFF) as u8);
    out.push(((x >> 16) & 0xFF) as u8);
    out.push(((x >> 8) & 0xFF) as u8);
    out.push((x & 0xFF) as u8);
    assert(out@ =~= old(out)@ + be32(x));
}

/// Frames `payload` under the four-byte `chunk_type` tag. Fails exactly when
/// the payload is longer than the 32-bit length field allows; the payload is
/// never truncated or wrapped.
pub fn frame(chunk_type: &[u8; 4], payload: &Vec<u8>) -> (r: Result<Vec<u8>, EncodeError>)
    ensures
        payload@.len() <= u32::MAX ==> (r matches Ok(out) && out@ == frame_bytes(
            chunk_type@,
            payload@,
        )),
        payload@.len() > u32::MAX ==> r == Result::<Vec<u8>, EncodeError>::Err(
            EncodeError::OversizedPayload,
        ),
{
    if payload.len() > u32::MAX as usize {
        return Err(EncodeError::OversizedPayload);
    }
    let payload_len = payload.len();
    let mut body: Vec<u8> = Vec::new();
    body.push(chunk_type[0]);
    body.push(chunk_type[1]);
    body.push(chunk_type[2]);
    body.push(chunk_type[3]);
    assert(body@ =~= chunk_type@);
    for i in 0..payload_len
        invariant
            payload_len == payload@.len(),
            body@ == chunk_type@ + payload@.subrange(0, i as int),
    {
        body.push(payload[i]);
        assert(body@ =~= chunk_type@ + payload@.subrange(0, i + 1));
    }
    assert(body@ =~= chunk_type@ + payload@);
    let crc = gen_crc(CRC_SEED, body.as_slice());
    let mut out: Vec<u8> = Vec::new();
    push_be32(&mut out, payload_len as u32);
    out.append(&mut body);
    push_be32(&mut out, crc);
    assert(out@ =~= frame_bytes(chunk_type@, payload@));
    Ok(out)
}

/// The first four bytes of a framed chunk decode, big-endian, to the payload
/// length, and the last four decode to the checksum of the tag followed by
/// the payload.
pub proof fn lemma_frame_layout(tag: Seq<u8>, payload: Seq<u8>)
    requires
        tag.len() == 4,
        payload.len() <= u32::MAX,
    ensures
        frame_bytes(tag, payload).len() == 12 + payload.len(),
        be32_val(frame_bytes(tag, payload).subrange(0, 4)) == payload.len(),
        be32_val(
            frame_bytes(tag, payload).subrange(8 + payload.len() as int, 12 + payload.len() as int),
        ) == crc32(tag + payload),
{
    let framed = frame_bytes(tag, payload);
    lemma_be32_roundtrip(payload.len() as u32);
    lemma_be32_roundtrip(crc32(tag + payload));
    assert(framed.subrange(0, 4) =~= be32(payload.len() as u32));
    assert(framed.subrange(8 + payload.len() as int, 12 + payload.len() as int) =~= be32(
        crc32(tag + payload),
    ));
}

} // verus!
