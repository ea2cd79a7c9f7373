//! The bus-frame value and its binary wire representation.
//!
//! A frame travels on the wire as a 4-byte big-endian ID word followed by a
//! 1-byte length and, for data frames only, the payload bytes. The ID word
//! packs three flag bits (extended format, remote request, error) above the
//! 29 identifier bits.

use vstd::prelude::*;

verus! {

/// Flag bit marking an extended-format (29-bit identifier) frame.
pub const EFF_FLAG: u32 = 0x8000_0000;
/// Flag bit marking a remote-request frame.
pub const RTR_FLAG: u32 = 0x4000_0000;
/// Flag bit marking a bus error frame.
pub const ERR_FLAG: u32 = 0x2000_0000;
/// Mask selecting the 29 identifier bits of an extended frame.
pub const EFF_MASK: u32 = 0x1FFF_FFFF;
/// Mask selecting the 11 identifier bits of a standard frame.
pub const SFF_MASK: u32 = 0x7FF;
/// Largest payload a classic bus frame can carry, in bytes.
pub const MAX_PAYLOAD: usize = 8;
/// Largest number of wire bytes one frame can occupy: header plus payload.
pub const MAX_WIRE_LEN: usize = 13;

/// One bus frame, the unit forwarded in both directions.
#[derive(Debug, PartialEq, Eq)]
pub enum CanFrame {
    /// An ordinary frame carrying up to eight payload bytes.
    Data { id: u32, extended: bool, payload: Vec<u8> },
    /// A request that a peer transmit `requested_len` bytes under `id`;
    /// carries no payload bytes on the wire.
    Remote { id: u32, extended: bool, requested_len: u8 },
    /// A bus error report. Its wire encoding is unspecified, so the codec
    /// refuses to transcode it rather than guess an encoding.
    Error { code: u32 },
}

/// The mathematical model of a bus frame: the payload as a sequence.
#[verifier::ext_equal]
pub enum FrameModel {
    Data { id: u32, extended: bool, payload: Seq<u8> },
    Remote { id: u32, extended: bool, requested_len: u8 },
    Error { code: u32 },
}

impl View for CanFrame {
    type V = FrameModel;

    open spec fn view(&self) -> FrameModel {
        match self {
            CanFrame::Data { id, extended, payload } => FrameModel::Data {
                id: *id,
                extended: *extended,
                payload: payload@,
            },
            CanFrame::Remote { id, extended, requested_len } => FrameModel::Remote {
                id: *id,
                extended: *extended,
                requested_len: *requested_len,
            },
            CanFrame::Error { code } => FrameModel::Error { code: *code },
        }
    }
}

/// An identifier value fits its format: 11 bits standard, 29 bits extended.
pub open spec fn id_fits(id: u32, extended: bool) -> bool {
    if extended {
        id <= EFF_MASK
    } else {
        id <= SFF_MASK
    }
}

/// A well-formed frame: the identifier fits its format and lengths respect
/// the classic bus maximum of eight bytes.
pub open spec fn frame_wf(m: FrameModel) -> bool {
    match m {
        FrameModel::Data { id, extended, payload } => id_fits(id, extended) && payload.len()
            <= MAX_PAYLOAD,
        FrameModel::Remote { id, extended, requested_len } => id_fits(id, extended)
            && requested_len as usize <= MAX_PAYLOAD,
        FrameModel::Error { .. } => true,
    }
}

/// The packed 32-bit ID word of a frame: flag bits above the identifier.
pub open spec fn id_word_of(m: FrameModel) -> u32 {
    match m {
        FrameModel::Data { id, extended, .. } => if extended {
            EFF_FLAG | id
        } else {
            id
        },
        FrameModel::Remote { id, extended, .. } => if extended {
            EFF_FLAG | RTR_FLAG | id
        } else {
            RTR_FLAG | id
        },
        FrameModel::Error { code } => ERR_FLAG | (code & EFF_MASK),
    }
}

/// The four bytes of a 32-bit word in big-endian order.
pub open spec fn be_bytes_of(w: u32) -> Seq<u8> {
    seq![
        ((w >> 24) & 0xFF) as u8,
        ((w >> 16) & 0xFF) as u8,
        ((w >> 8) & 0xFF) as u8,
        (w & 0xFF) as u8,
    ]
}

/// The 32-bit word read from four bytes in big-endian order.
pub open spec fn word_from_be(b0: u8, b1: u8, b2: u8, b3: u8) -> u32 {
    ((b0 as u32) << 24) | ((b1 as u32) << 16) | ((b2 as u32) << 8) | (b3 as u32)
}

/// The canonical wire bytes of a frame: ID word, length byte, then the
/// payload (data frames only). Error frames have no defined encoding.
pub open spec fn wire_of(m: FrameModel) -> Seq<u8> {
    match m {
        FrameModel::Data { payload, .. } => be_bytes_of(id_word_of(m)) + seq![
            payload.len() as u8,
        ] + payload,
        FrameModel::Remote { requested_len, .. } => be_bytes_of(id_word_of(m)) + seq![
            requested_len,
        ],
        FrameModel::Error { .. } => Seq::empty(),
    }
}

/// The number of wire bytes a frame occupies.
pub open spec fn wire_len(m: FrameModel) -> int {
    match m {
        FrameModel::Data { payload, .. } => 5 + payload.len() as int,
        FrameModel::Remote { .. } => 5,
        FrameModel::Error { .. } => 0,
    }
}

impl CanFrame {
    /// The packed 32-bit ID word of this frame.
    pub fn id_word(&self) -> (w: u32)
        ensures
            w == id_word_of(self@),
    {
        match self {
            CanFrame::Data { id, extended, .. } => if *extended {
                EFF_FLAG | *id
            } else {
                *id
            },
            CanFrame::Remote { id, extended, .. } => if *extended {
                EFF_FLAG | RTR_FLAG | *id
            } else {
                RTR_FLAG | *id
            },
            CanFrame::Error { code } => ERR_FLAG | (*code & EFF_MASK),
        }
    }

    /// Whether this frame is well formed.
    pub fn is_well_formed(&self) -> (r: bool)
        ensures
            r == frame_wf(self@),
    {
        match self {
            CanFrame::Data { id, extended, payload } => {
                let fits: bool = if *extended {
                    *id <= EFF_MASK
                } else {
                    *id <= SFF_MASK
                };
                fits && payload.len() <= MAX_PAYLOAD
            },
            CanFrame::Remote { id, extended, requested_len } => {
                let fits: bool = if *extended {
                    *id <= EFF_MASK
                } else {
                    *id <= SFF_MASK
                };
                fits && (*requested_len as usize) <= MAX_PAYLOAD
            },
            CanFrame::Error { .. } => true,
        }
    }
}

} // verus!
