//! Framing for the byte-stream channel.
//!
//! Request and response messages travel over a stream and are read into a
//! bounded buffer, so each message is framed: a 32-bit little-endian
//! payload length, then the payload.  A frame is never longer than
//! [`MAX_FRAME`] bytes of payload; the reader can tell a frame that has
//! not fully arrived from one that is too long to accept.

use vstd::prelude::*;

verus! {

use crate::wire::{enc_u32, lemma_dec_enc_u32, group_enc_lens};
use vstd::bytes::{spec_u32_from_le_bytes, lemma_auto_spec_u32_to_from_le_bytes, u32_from_le_bytes};
use vstd::slice::{slice_subrange, slice_to_vec};

/// Largest payload a frame may carry.
pub const MAX_FRAME: usize = 65536;

/// A framed payload: its length as a 32-bit little-endian prefix, then
/// its bytes.
pub open spec fn spec_frame(p: Seq<u8>) -> Seq<u8> {
    enc_u32(p.len() as u32) + p
}

/// The payload length a buffer's first four bytes declare.
pub open spec fn spec_frame_len(b: Seq<u8>) -> int {
    spec_u32_from_le_bytes(b.subrange(0, 4)) as int
}

/// Wrap a payload in a frame; refused when it exceeds [`MAX_FRAME`].
pub fn frame_message(payload: &Vec<u8>) -> (r: Option<Vec<u8>>)
    ensures
        match r {
            Some(v) => payload@.len() <= MAX_FRAME && v@ == spec_frame(payload@),
            None => payload@.len() > MAX_FRAME,
        },
{
    let n = payload.len();
    if n > MAX_FRAME {
        return None;
    }
    let mut out: Vec<u8> = Vec::new();
    crate::wire::put_u32(&mut out, n as u32);
    out.extend_from_slice(payload.as_slice());
    proof {
        assert(out@ =~= spec_frame(payload@));
    }
    Some(out)
}

/// What the start of a read buffer holds.
pub enum FrameStatus {
    /// One whole frame: its payload, and how many buffer bytes it used.
    Complete { payload: Vec<u8>, used: usize },
    /// The frame has not fully arrived yet; read more bytes.
    Incomplete,
    /// The declared payload length exceeds [`MAX_FRAME`]; the connection
    /// should be dropped.
    Oversized,
}

/// Read one frame off the start of the buffer.
pub fn parse_frame(buf: &[u8]) -> (r: FrameStatus)
    ensures
        match r {
            FrameStatus::Complete { payload, used } => {
                &&& payload@.len() <= MAX_FRAME
                &&& used == 4 + payload@.len()
                &&& used <= buf@.len()
                &&& buf@.subrange(0, used as int) == spec_frame(payload@)
            },
            FrameStatus::Incomplete => buf@.len() < 4 || (spec_frame_len(buf@) <= MAX_FRAME && 4
                + spec_frame_len(buf@) > buf@.len()),
            FrameStatus::Oversized => buf@.len() >= 4 && spec_frame_len(buf@) > MAX_FRAME,
        },
{
    let n = buf.len();
    if n < 4 {
        return FrameStatus::Incomplete;
    }
    let head = slice_subrange(buf, 0, 4);
    let declared = u32_from_le_bytes(head);
    if declared as u64 > MAX_FRAME as u64 {
        return FrameStatus::Oversized;
    }
    let len = declared as usize;
    if n - 4 < len {
        return FrameStatus::Incomplete;
    }
    let payload = slice_to_vec(slice_subrange(buf, 4, 4 + len));
    proof {
        lemma_auto_spec_u32_to_from_le_bytes();
        assert(buf@.subrange(0, 4 + len as int) =~= spec_frame(payload@)) by {
            broadcast use group_enc_lens;

            assert(payload@ == buf@.subrange(4, 4 + len as int));
            assert(enc_u32(payload@.len() as u32) == buf@.subrange(0, 4)) by {
                assert(payload@.len() as u32 == spec_u32_from_le_bytes(buf@.subrange(0, 4)));
            }
        }
    }
    FrameStatus::Complete { payload, used: 4 + len }
}

/// The frame of a payload parses back to that payload: the length prefix
/// of `spec_frame(p)` declares exactly `p`'s length.
pub proof fn lemma_frame_round_trip(p: Seq<u8>)
    requires
        p.len() <= MAX_FRAME,
    ensures
        spec_frame(p).len() == 4 + p.len(),
        spec_frame_len(spec_frame(p)) == p.len(),
{
    broadcast use group_enc_lens;

    lemma_auto_spec_u32_to_from_le_bytes();
    assert(spec_frame(p).subrange(0, 4) =~= enc_u32(p.len() as u32));
    assert(spec_u32_from_le_bytes(enc_u32(p.len() as u32)) == p.len() as u32);
}

} // verus!
