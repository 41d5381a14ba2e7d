//! Length-prefixed message framing.
//!
//! A frame is a 4-byte little-endian length followed by exactly that many
//! payload bytes. The producing agent runs on a little-endian machine and
//! writes the length in its native order, so the codec fixes little-endian.
//! A buffer that ends before the length field or before the announced
//! payload is a framing error, not a protocol error.

use vstd::bytes::spec_u32_to_le_bytes;
use vstd::bytes::spec_u32_from_le_bytes;
use vstd::bytes::lemma_auto_spec_u32_to_from_le_bytes;
use vstd::bytes::u32_to_le_bytes;
use vstd::bytes::u32_from_le_bytes;
use vstd::prelude::*;
use vstd::slice::slice_subrange;
use vstd::slice::slice_to_vec;

verus! {

/// Failure of the framing layer: the byte stream ended (or was cut) before a
/// whole frame was available. It signals stream termination or corruption,
/// never an unrecognized packet.
#[derive(Debug, Clone, Copy, PartialEq, Eq, Structural)]
pub enum FramingError {
    Truncated,
}

/// The encoded form of a payload: its length as four little-endian bytes,
/// then the payload itself.
pub open spec fn frame_bytes(payload: Seq<u8>) -> Seq<u8> {
    spec_u32_to_le_bytes(payload.len() as u32) + payload
}

/// Holds when `buf` begins with one complete frame.
pub open spec fn holds_frame(buf: Seq<u8>) -> bool {
    buf.len() >= 4 && buf.len() >= 4 + spec_u32_from_le_bytes(buf.subrange(0, 4))
}

/// The payload of the complete frame at the start of `buf`.
pub open spec fn frame_payload(buf: Seq<u8>) -> Seq<u8>
    recommends
        holds_frame(buf),
{
    buf.subrange(4, 4 + spec_u32_from_le_bytes(buf.subrange(0, 4)) as int)
}

/// Encodes `payload` as one frame.
pub fn encode_frame(payload: &[u8]) -> (out: Vec<u8>)
    requires
        payload@.len() <= u32::MAX,
    ensures
        out@ == frame_bytes(payload@),
{
    let len: u32 = payload.len() as u32;
    let mut out = u32_to_le_bytes(len);
    out.extend_from_slice(payload);
    assert(out@ == frame_bytes(payload@));
    out
}

/// Decodes the frame at the start of `buf`, returning its payload and the
/// number of bytes consumed. Succeeds exactly when `buf` holds a complete
/// frame; any shorter buffer is a truncated frame.
pub fn decode_frame(buf: &[u8]) -> (r: Result<(Vec<u8>, usize), FramingError>)
    ensures
        r is Ok <==> holds_frame(buf@),
        r matches Ok((payload, consumed)) ==> {
            &&& payload@ == frame_payload(buf@)
            &&& consumed == 4 + spec_u32_from_le_bytes(buf@.subrange(0, 4))
            &&& consumed <= buf@.len()
        },
        r matches Err(e) ==> e == FramingError::Truncated,
{
    if buf.len() < 4 {
        return Err(FramingError::Truncated);
    }
    let header: &[u8] = slice_subrange(buf, 0, 4);
    let len: usize = u32_from_le_bytes(header) as usize;
    if buf.len() - 4 < len {
        return Err(FramingError::Truncated);
    }
    let body: &[u8] = slice_subrange(buf, 4, 4 + len);
    let payload = slice_to_vec(body);
    Ok((payload, 4 + len))
}

/// A payload encoded and then decoded comes back unchanged, with the whole
/// frame consumed.
pub proof fn lemma_frame_round_trip(payload: Seq<u8>)
    requires
        payload.len() <= u32::MAX,
    ensures
        holds_frame(frame_bytes(payload)),
        frame_payload(frame_bytes(payload)) == payload,
        4 + spec_u32_from_le_bytes(frame_bytes(payload).subrange(0, 4)) == frame_bytes(
            payload,
        ).len(),
{
    lemma_auto_spec_u32_to_from_le_bytes();
    let framed = frame_bytes(payload);
    assert(framed.subrange(0, 4) =~= spec_u32_to_le_bytes(payload.len() as u32));
    assert(frame_payload(framed) =~= payload);
}

/// A length prefix that announces more bytes than follow never decodes: the
/// buffer does not hold a frame.
pub proof fn lemma_truncated_frame(buf: Seq<u8>)
    requires
        buf.len() >= 4,
        buf.len() < 4 + spec_u32_from_le_bytes(buf.subrange(0, 4)),
    ensures
        !holds_frame(buf),
{
}

} // verus!
