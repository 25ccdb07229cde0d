//! The frame codec: a message travels as a 4-byte big-endian length
//! followed by its canonical binary encoding.
//!
//! `CastCodec::encode` appends one frame to a buffer; `CastCodec::decode`
//! consumes exactly one complete frame from the front of a buffer, or
//! leaves the buffer untouched when the frame is still incomplete.  The
//! framing laws at the end state the round trip: a decode of an encode
//! yields the message back, and any strict prefix of a frame decodes to
//! "not yet".

use vstd::prelude::*;
use vstd::string::*;

use crate::error::CastError;
use crate::proto::{
    spec_message_bytes, spec_parse_message, message_from_bytes, message_to_bytes, push_bytes,
    sub_bytes, CastMessage, CastMessageModel, lemma_parse_message_canonical,
};

verus! {

/// The four big-endian bytes of `x`.
pub open spec fn spec_be32(x: u32) -> Seq<u8> {
    seq![
        (x >> 24) as u8,
        ((x >> 16) & 0xff) as u8,
        ((x >> 8) & 0xff) as u8,
        (x & 0xff) as u8,
    ]
}

/// The value of four big-endian bytes.
pub open spec fn spec_be32_val(b: Seq<u8>) -> u32
    recommends
        b.len() == 4,
{
    ((b[0] as u32) << 24) | ((b[1] as u32) << 16) | ((b[2] as u32) << 8) | (b[3] as u32)
}

proof fn lemma_be32_round(x: u32)
    ensures
        spec_be32(x).len() == 4,
        spec_be32_val(spec_be32(x)) == x,
{
    assert((((x >> 24) as u8 as u32) << 24) | ((((x >> 16) & 0xff) as u8 as u32) << 16) | ((((x
        >> 8) & 0xff) as u8 as u32) << 8) | ((x & 0xff) as u8 as u32) == x) by (bit_vector);
}

/// One whole frame: big-endian length, then the message bytes.
pub open spec fn spec_frame(mm: CastMessageModel) -> Seq<u8>
    recommends
        spec_message_bytes(mm).len() < 0x1_0000_0000,
{
    spec_be32(spec_message_bytes(mm).len() as u32) + spec_message_bytes(mm)
}

/// What decoding makes of a buffer.
pub enum FrameDecodeOutcome {
    /// Fewer bytes than one frame; nothing is consumed.
    Incomplete,
    /// A full frame whose payload is not a canonical message; the frame is
    /// consumed and the remainder is given.
    Malformed(Seq<u8>),
    /// A full frame holding the message; the frame is consumed and the
    /// remainder is given.
    Frame(CastMessageModel, Seq<u8>),
}

/// The decoding of the front of `b`.
pub open spec fn spec_decode_frame(b: Seq<u8>) -> FrameDecodeOutcome {
    if b.len() < 4 {
        FrameDecodeOutcome::Incomplete
    } else {
        let l = spec_be32_val(b.subrange(0, 4)) as int;
        if b.len() < 4 + l {
            FrameDecodeOutcome::Incomplete
        } else {
            match spec_parse_message(b.subrange(4, 4 + l)) {
                Some(mm) => FrameDecodeOutcome::Frame(mm, b.subrange(4 + l, b.len() as int)),
                None => FrameDecodeOutcome::Malformed(b.subrange(4 + l, b.len() as int)),
            }
        }
    }
}

/// The frame codec.
pub struct CastCodec;

impl CastCodec {
    /// Appends one frame holding `item` to `dst`.  Fails, leaving `dst`
    /// unchanged, only when the encoded message cannot be measured by a
    /// 32-bit length.
    pub fn encode(item: &CastMessage, dst: &mut Vec<u8>) -> (r: Result<(), CastError>)
        ensures
            r is Ok <==> spec_message_bytes(item@).len() < 0x1_0000_0000,
            r is Ok ==> final(dst)@ == old(dst)@ + spec_frame(item@),
            r is Err ==> final(dst)@ == old(dst)@,
    {
        let payload = message_to_bytes(item);
        if payload.len() as u64 >= 0x1_0000_0000u64 {
            return Err(CastError::Encode(String::from_str("message too large to frame")));
        }
        let len: u32 = payload.len() as u32;
        dst.push((len >> 24) as u8);
        dst.push(((len >> 16) & 0xff) as u8);
        dst.push(((len >> 8) & 0xff) as u8);
        dst.push((len & 0xff) as u8);
        let ghost with_len = dst@;
        push_bytes(dst, &payload);
        proof {
            assert(with_len =~= old(dst)@ + spec_be32(len));
            assert(final(dst)@ =~= old(dst)@ + spec_frame(item@));
        }
        Ok(())
    }

    /// Consumes one complete frame from the front of `src` and returns its
    /// message.  Returns `Ok(None)`, consuming nothing, while fewer bytes
    /// than one frame have arrived; fails when a complete frame's payload
    /// is not a canonical message, consuming the frame.
    pub fn decode(src: &mut Vec<u8>) -> (r: Result<Option<CastMessage>, CastError>)
        ensures
            match spec_decode_frame(old(src)@) {
                FrameDecodeOutcome::Incomplete => r matches Ok(o) && o is None && final(src)@
                    == old(src)@,
                FrameDecodeOutcome::Malformed(rest) => r is Err && final(src)@ == rest,
                FrameDecodeOutcome::Frame(mm, rest) => r matches Ok(o) && (o matches Some(m)
                    && m@ == mm) && final(src)@ == rest,
            },
    {
        let srclen = src.len();
        if srclen < 4 {
            return Ok(None);
        }
        let len: u32 = (((src[0] as u32) << 24) | ((src[1] as u32) << 16) | ((src[2] as u32) << 8)
            | (src[3] as u32));
        proof {
            assert(src@.subrange(0, 4)[0] == src@[0]);
            assert(src@.subrange(0, 4)[1] == src@[1]);
            assert(src@.subrange(0, 4)[2] == src@[2]);
            assert(src@.subrange(0, 4)[3] == src@[3]);
            assert(spec_be32_val(src@.subrange(0, 4)) == len);
        }
        let avail: u64 = (srclen - 4) as u64;
        if avail < (len as u64) {
            return Ok(None);
        }
        let l: usize = len as usize;
        let payload = sub_bytes(src, 4, 4 + l);
        let rest = sub_bytes(src, 4 + l, srclen);
        let decoded = message_from_bytes(&payload);
        *src = rest;
        match decoded {
            Some(m) => Ok(Some(m)),
            None => Err(CastError::Decode(String::from_str("frame payload is not a message"))),
        }
    }
}

/// Framing round trip: one encoded frame followed by anything else decodes
/// to the message itself, consuming exactly the frame.
pub proof fn lemma_frame_round_trip(mm: CastMessageModel, rest: Seq<u8>)
    requires
        spec_message_bytes(mm).len() < 0x1_0000_0000,
    ensures
        spec_decode_frame(spec_frame(mm) + rest) == FrameDecodeOutcome::Frame(mm, rest),
{
    let msg = spec_message_bytes(mm);
    let len: u32 = msg.len() as u32;
    let hdr = spec_be32(len);
    let b = spec_frame(mm) + rest;
    lemma_be32_round(len);
    assert(b =~= hdr + msg + rest);
    assert(b.subrange(0, 4) =~= hdr);
    assert(b.subrange(4, 4 + msg.len() as int) =~= msg);
    assert(b.subrange(4 + msg.len() as int, b.len() as int) =~= rest);
    lemma_parse_message_canonical(mm);
}

/// Incremental delivery: every strict prefix of a frame decodes to "not
/// yet", consuming nothing.
pub proof fn lemma_frame_prefix_incomplete(mm: CastMessageModel, i: int)
    requires
        spec_message_bytes(mm).len() < 0x1_0000_0000,
        0 <= i < spec_frame(mm).len(),
    ensures
        spec_decode_frame(spec_frame(mm).take(i)) == FrameDecodeOutcome::Incomplete,
{
    let msg = spec_message_bytes(mm);
    let len: u32 = msg.len() as u32;
    let hdr = spec_be32(len);
    let frame = spec_frame(mm);
    let p = frame.take(i);
    if i >= 4 {
        lemma_be32_round(len);
        assert(p.subrange(0, 4) =~= hdr);
        assert(p.len() < 4 + (len as int));
    }
}

} // verus!
