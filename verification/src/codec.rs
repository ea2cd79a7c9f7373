//! The frame codec: a stateless transcoder between bus-frame values and
//! their wire bytes, working on the caller-supplied accumulation buffer.
//!
//! Framing is entirely length-driven: a remote frame is exactly five wire
//! bytes, a data frame five plus its payload length, and there is no
//! separator. Decoding consumes nothing until a complete frame is present.

use vstd::prelude::*;
use bytes::BytesMut;
use crate::bytebuf::{buf_advance, buf_bytes, buf_get, buf_len, buf_put_slice, buf_put_u32,
    buf_put_u8, buf_reserve};
use crate::frame::{frame_wf, id_fits, id_word_of, wire_len, wire_of, word_from_be, CanFrame,
    FrameModel, EFF_FLAG, EFF_MASK, ERR_FLAG, MAX_PAYLOAD, MAX_WIRE_LEN, RTR_FLAG, SFF_MASK};

verus! {

/// A fault the codec raises instead of emitting or accepting wrong bytes.
#[derive(Debug, Clone, Copy, PartialEq, Eq, Structural)]
pub enum CodecError {
    /// An error frame was met; its wire encoding is unspecified, so the
    /// codec refuses it rather than guess.
    UnsupportedFrame,
    /// A frame handed to the encoder exceeds its format: payload or
    /// requested length over the classic maximum, or an identifier that
    /// does not fit its 11- or 29-bit form.
    InvalidFrame,
    /// A data-frame length byte on the wire exceeds the classic maximum.
    InvalidLength,
}

/// What one decode step does to a byte sequence.
#[verifier::ext_equal]
pub enum DecodeModel {
    /// Too few bytes for a complete frame; nothing is consumed.
    NeedMore,
    /// A complete frame; `consumed` bytes leave the buffer.
    Frame { frame: FrameModel, consumed: int },
    /// An error-flagged ID word; its header is consumed and refused.
    Unsupported { consumed: int },
    /// A data length byte over the classic maximum; the header is consumed
    /// and the frame refused.
    Malformed { consumed: int },
}

/// The decode step on a byte sequence, per the wire protocol: read the
/// 4-byte big-endian ID word and the length byte. A remote-flagged frame
/// occupies exactly five bytes whatever the length byte says, the length
/// being metadata only (clamped to the classic maximum). An error-flagged
/// word is refused rather than misread as ordinary data. A data frame needs
/// five bytes plus its declared length before anything is consumed.
pub open spec fn spec_decode(b: Seq<u8>) -> DecodeModel {
    if b.len() < 5 {
        DecodeModel::NeedMore
    } else {
        let w = word_from_be(b[0], b[1], b[2], b[3]);
        let dlc = b[4];
        if w & RTR_FLAG != 0 {
            let extended = w & EFF_FLAG != 0;
            DecodeModel::Frame {
                frame: FrameModel::Remote {
                    id: if extended {
                        w & EFF_MASK
                    } else {
                        w & SFF_MASK
                    },
                    extended,
                    requested_len: if dlc as usize > MAX_PAYLOAD {
                        MAX_PAYLOAD as u8
                    } else {
                        dlc
                    },
                },
                consumed: 5,
            }
        } else if w & ERR_FLAG != 0 {
            DecodeModel::Unsupported { consumed: 5 }
        } else if dlc as usize > MAX_PAYLOAD {
            DecodeModel::Malformed { consumed: 5 }
        } else if b.len() < 5 + dlc {
            DecodeModel::NeedMore
        } else {
            let extended = w & EFF_FLAG != 0;
            DecodeModel::Frame {
                frame: FrameModel::Data {
                    id: if extended {
                        w & EFF_MASK
                    } else {
                        w & SFF_MASK
                    },
                    extended,
                    payload: b.subrange(5, 5 + dlc as int),
                },
                consumed: 5 + dlc as int,
            }
        }
    }
}

/// Stateless transcoder between bus-frame values and their wire bytes.
pub struct CanFrameCodec;

impl CanFrameCodec {
    /// Append the wire encoding of `item` to `dst`.
    ///
    /// Encoding never fails for a well-formed data or remote frame and
    /// appends exactly its wire bytes. An error frame is refused as
    /// unsupported, a frame that exceeds its format is refused as invalid,
    /// and a refused frame leaves the buffer untouched.
    pub fn encode(&mut self, item: CanFrame, dst: &mut BytesMut) -> (res: Result<
        (),
        CodecError,
    >)
        requires
            buf_bytes(*old(dst)).len() + MAX_WIRE_LEN <= isize::MAX,
        ensures
            item@ is Error ==> res == Err::<(), CodecError>(CodecError::UnsupportedFrame)
                && buf_bytes(*final(dst)) == buf_bytes(*old(dst)),
            item@ !is Error && !frame_wf(item@) ==> res == Err::<(), CodecError>(
                CodecError::InvalidFrame,
            ) && buf_bytes(*final(dst)) == buf_bytes(*old(dst)),
            item@ !is Error && frame_wf(item@) ==> res == Ok::<(), CodecError>(()) && buf_bytes(
                *final(dst),
            ) == buf_bytes(*old(dst)) + wire_of(item@),
    {
        match item {
            CanFrame::Data { id, extended, payload } => {
                let fits: bool = if extended {
                    id <= EFF_MASK
                } else {
                    id <= SFF_MASK
                };
                if !fits || payload.len() > MAX_PAYLOAD {
                    return Err(CodecError::InvalidFrame);
                }
                let w: u32 = if extended {
                    EFF_FLAG | id
                } else {
                    id
                };
                buf_reserve(dst, 5 + payload.len());
                buf_put_u32(dst, w);
                buf_put_u8(dst, payload.len() as u8);
                buf_put_slice(dst, payload.as_slice());
                proof {
                    assert(buf_bytes(*final(dst)) =~= buf_bytes(*old(dst)) + wire_of(item@));
                }
                Ok(())
            },
            CanFrame::Remote { id, extended, requested_len } => {
                let fits: bool = if extended {
                    id <= EFF_MASK
                } else {
                    id <= SFF_MASK
                };
                if !fits || (requested_len as usize) > MAX_PAYLOAD {
                    return Err(CodecError::InvalidFrame);
                }
                let w: u32 = if extended {
                    EFF_FLAG | RTR_FLAG | id
                } else {
                    RTR_FLAG | id
                };
                buf_reserve(dst, 5);
                buf_put_u32(dst, w);
                buf_put_u8(dst, requested_len);
                proof {
                    assert(buf_bytes(*final(dst)) =~= buf_bytes(*old(dst)) + wire_of(item@));
                }
                Ok(())
            },
            CanFrame::Error { .. } => Err(CodecError::UnsupportedFrame),
        }
    }

    /// Try to extract one frame from the front of `src`.
    ///
    /// With fewer than five bytes buffered, or a data frame whose declared
    /// payload has not fully arrived, nothing is consumed and no frame is
    /// returned (capacity for the shortfall is reserved so the next read can
    /// complete the frame). Otherwise the one frame at the front is consumed
    /// and returned, or refused exactly as `spec_decode` says; a returned
    /// frame is always well formed. The call never blocks and is idempotent
    /// on an unchanged buffer.
    pub fn decode(&mut self, src: &mut BytesMut) -> (res: Result<Option<CanFrame>, CodecError>)
        ensures
            spec_decode(buf_bytes(*old(src))) is NeedMore ==> res == Ok::<
                Option<CanFrame>,
                CodecError,
            >(None) && buf_bytes(*final(src)) == buf_bytes(*old(src)),
            (spec_decode(buf_bytes(*old(src))) matches DecodeModel::Frame { frame, consumed } ==> (
            res matches Ok(Some(f)) && f@ == frame) && frame_wf(frame) && buf_bytes(*final(src))
                == buf_bytes(*old(src)).skip(consumed)),
            spec_decode(buf_bytes(*old(src))) is Unsupported ==> res == Err::<
                Option<CanFrame>,
                CodecError,
            >(CodecError::UnsupportedFrame) && buf_bytes(*final(src)) == buf_bytes(
                *old(src),
            ).skip(5),
            spec_decode(buf_bytes(*old(src))) is Malformed ==> res == Err::<
                Option<CanFrame>,
                CodecError,
            >(CodecError::InvalidLength) && buf_bytes(*final(src)) == buf_bytes(*old(src)).skip(5),
    {
        let n = buf_len(src);
        if n < 5 {
            return Ok(None);
        }
        let ghost b0 = buf_bytes(*old(src));
        let h0 = buf_get(src, 0);
        let h1 = buf_get(src, 1);
        let h2 = buf_get(src, 2);
        let h3 = buf_get(src, 3);
        let dlc = buf_get(src, 4);
        let w: u32 = ((h0 as u32) << 24) | ((h1 as u32) << 16) | ((h2 as u32) << 8) | (h3 as u32);
        proof {
            assert(w == word_from_be(b0[0], b0[1], b0[2], b0[3]));
        }
        if w & RTR_FLAG != 0 {
            let extended: bool = (w & EFF_FLAG) != 0;
            let id: u32 = if extended {
                w & EFF_MASK
            } else {
                w & SFF_MASK
            };
            let req: u8 = if (dlc as usize) > MAX_PAYLOAD {
                MAX_PAYLOAD as u8
            } else {
                dlc
            };
            proof {
                assert(w & 0x1FFF_FFFFu32 <= 0x1FFF_FFFF) by (bit_vector);
                assert(w & 0x7FFu32 <= 0x7FF) by (bit_vector);
            }
            buf_advance(src, 5);
            Ok(Some(CanFrame::Remote { id, extended, requested_len: req }))
        } else if w & ERR_FLAG != 0 {
            buf_advance(src, 5);
            Err(CodecError::UnsupportedFrame)
        } else if (dlc as usize) > MAX_PAYLOAD {
            buf_advance(src, 5);
            Err(CodecError::InvalidLength)
        } else {
            let need: usize = 5 + (dlc as usize);
            if n < need {
                // The full frame has not yet arrived: make room for the
                // shortfall so the next read can bring the rest at once.
                buf_reserve(src, need - n);
                return Ok(None);
            }
            let mut payload: Vec<u8> = Vec::new();
            let mut i: usize = 0;
            proof {
                assert(payload@ =~= b0.subrange(5, 5));
            }
            while i < dlc as usize
                invariant
                    i <= dlc as usize,
                    dlc as usize <= MAX_PAYLOAD,
                    buf_bytes(*src) == b0,
                    n == b0.len(),
                    5 + dlc as usize <= n,
                    payload@ == b0.subrange(5, 5 + i as int),
                decreases dlc as usize - i,
            {
                let byte = buf_get(src, 5 + i);
                payload.push(byte);
                i = i + 1;
                proof {
                    assert(payload@ =~= b0.subrange(5, 5 + i as int));
                }
            }
            let extended: bool = (w & EFF_FLAG) != 0;
            let id: u32 = if extended {
                w & EFF_MASK
            } else {
                w & SFF_MASK
            };
            proof {
                assert(w & 0x1FFF_FFFFu32 <= 0x1FFF_FFFF) by (bit_vector);
                assert(w & 0x7FFu32 <= 0x7FF) by (bit_vector);
            }
            buf_advance(src, need);
            Ok(Some(CanFrame::Data { id, extended, payload }))
        }
    }
}

/// The four big-endian bytes of a word recompose to the word.
proof fn lemma_word_bytes_recompose(w: u32)
    ensures
        word_from_be(
            ((w >> 24) & 0xFF) as u8,
            ((w >> 16) & 0xFF) as u8,
            ((w >> 8) & 0xFF) as u8,
            (w & 0xFF) as u8,
        ) == w,
{
    assert(word_from_be(
        ((w >> 24) & 0xFF) as u8,
        ((w >> 16) & 0xFF) as u8,
        ((w >> 8) & 0xFF) as u8,
        (w & 0xFF) as u8,
    ) == w) by (bit_vector);
}

/// Packing an identifier that fits its format together with its flag bits
/// unpacks to the same flags and the same identifier.
proof fn lemma_pack_unpack(id: u32, extended: bool, remote: bool)
    requires
        id_fits(id, extended),
    ensures
        ({
            let w = if extended {
                if remote {
                    EFF_FLAG | RTR_FLAG | id
                } else {
                    EFF_FLAG | id
                }
            } else {
                if remote {
                    RTR_FLAG | id
                } else {
                    id
                }
            };
            &&& ((w & RTR_FLAG) != 0) == remote
            &&& ((w & EFF_FLAG) != 0) == extended
            &&& (w & ERR_FLAG) == 0
            &&& (if extended {
                w & EFF_MASK
            } else {
                w & SFF_MASK
            }) == id
        }),
{
    if extended {
        if remote {
            assert(id <= 0x1FFF_FFFFu32 ==> (((0x8000_0000u32 | 0x4000_0000) | id) & 0x4000_0000)
                != 0 && (((0x8000_0000u32 | 0x4000_0000) | id) & 0x8000_0000) != 0 && (((
            0x8000_0000u32 | 0x4000_0000) | id) & 0x2000_0000) == 0 && (((0x8000_0000u32
                | 0x4000_0000) | id) & 0x1FFF_FFFF) == id) by (bit_vector);
        } else {
            assert(id <= 0x1FFF_FFFFu32 ==> ((0x8000_0000u32 | id) & 0x4000_0000) == 0 && ((
            0x8000_0000u32 | id) & 0x8000_0000) != 0 && ((0x8000_0000u32 | id) & 0x2000_0000) == 0
                && ((0x8000_0000u32 | id) & 0x1FFF_FFFF) == id) by (bit_vector);
        }
    } else {
        if remote {
            assert(id <= 0x7FFu32 ==> ((0x4000_0000u32 | id) & 0x4000_0000) != 0 && ((
            0x4000_0000u32 | id) & 0x8000_0000) == 0 && ((0x4000_0000u32 | id) & 0x2000_0000) == 0
                && ((0x4000_0000u32 | id) & 0x7FF) == id) by (bit_vector);
        } else {
            assert(id <= 0x7FFu32 ==> (id & 0x4000_0000) == 0 && (id & 0x8000_0000) == 0 && (id
                & 0x2000_0000) == 0 && (id & 0x7FF) == id) by (bit_vector);
        }
    }
}

/// Round trip for data frames: a buffer that starts with the wire bytes of a
/// well-formed data frame decodes to exactly that frame, consumes exactly
/// its wire length, and leaves exactly the trailing bytes.
pub proof fn lemma_data_round_trip(m: FrameModel, rest: Seq<u8>)
    requires
        m is Data,
        frame_wf(m),
    ensures
        spec_decode(wire_of(m) + rest) == (DecodeModel::Frame {
            frame: m,
            consumed: wire_len(m),
        }),
        (wire_of(m) + rest).skip(wire_len(m)) == rest,
{
    let w = id_word_of(m);
    let full = wire_of(m) + rest;
    let payload = m->Data_payload;
    assert(full[0] == ((w >> 24) & 0xFF) as u8);
    assert(full[1] == ((w >> 16) & 0xFF) as u8);
    assert(full[2] == ((w >> 8) & 0xFF) as u8);
    assert(full[3] == (w & 0xFF) as u8);
    lemma_word_bytes_recompose(w);
    assert(word_from_be(full[0], full[1], full[2], full[3]) == w);
    lemma_pack_unpack(m->Data_id, m->Data_extended, false);
    assert(full[4] == payload.len() as u8);
    assert((payload.len() as u8) as usize == payload.len());
    assert(full.len() == 5 + payload.len() + rest.len());
    assert(full.subrange(5, 5 + payload.len() as int) =~= payload);
    assert(spec_decode(full) =~~= (DecodeModel::Frame { frame: m, consumed: wire_len(m) }));
    assert(full.skip(wire_len(m)) =~= rest);
}

/// Round trip for remote frames: a buffer that starts with the five wire
/// bytes of a well-formed remote frame decodes to exactly that frame and
/// consumes exactly five bytes, even if more bytes follow.
pub proof fn lemma_remote_round_trip(m: FrameModel, rest: Seq<u8>)
    requires
        m is Remote,
        frame_wf(m),
    ensures
        spec_decode(wire_of(m) + rest) == (DecodeModel::Frame { frame: m, consumed: 5 }),
        (wire_of(m) + rest).skip(5) == rest,
{
    let w = id_word_of(m);
    let full = wire_of(m) + rest;
    assert(full[0] == ((w >> 24) & 0xFF) as u8);
    assert(full[1] == ((w >> 16) & 0xFF) as u8);
    assert(full[2] == ((w >> 8) & 0xFF) as u8);
    assert(full[3] == (w & 0xFF) as u8);
    lemma_word_bytes_recompose(w);
    assert(word_from_be(full[0], full[1], full[2], full[3]) == w);
    lemma_pack_unpack(m->Remote_id, m->Remote_extended, true);
    assert(full[4] == m->Remote_requested_len);
    assert(spec_decode(full) =~~= (DecodeModel::Frame { frame: m, consumed: 5 }));
    assert(full.skip(5) =~= rest);
}

/// Partial-frame stability: any strict prefix of a well-formed data frame's
/// wire bytes — the header alone, or the header and part of the payload —
/// decodes to "no frame yet", so the decoder consumes nothing.
pub proof fn lemma_data_partial_needs_more(m: FrameModel, n: int)
    requires
        m is Data,
        frame_wf(m),
        0 <= n < wire_len(m),
    ensures
        spec_decode(wire_of(m).take(n)) is NeedMore,
{
    let w = id_word_of(m);
    let payload = m->Data_payload;
    let prefix = wire_of(m).take(n);
    assert(prefix.len() == n);
    if n >= 5 {
        assert(prefix[0] == ((w >> 24) & 0xFF) as u8);
        assert(prefix[1] == ((w >> 16) & 0xFF) as u8);
        assert(prefix[2] == ((w >> 8) & 0xFF) as u8);
        assert(prefix[3] == (w & 0xFF) as u8);
        lemma_word_bytes_recompose(w);
        assert(word_from_be(prefix[0], prefix[1], prefix[2], prefix[3]) == w);
        lemma_pack_unpack(m->Data_id, m->Data_extended, false);
        assert(prefix[4] == payload.len() as u8);
        assert((payload.len() as u8) as usize == payload.len());
        assert(prefix.len() < 5 + payload.len());
    }
}

} // verus!
