//! Multiplexer wire frames: a 12-byte big-endian header (version, type,
//! flags, stream id, length-or-value) followed by a payload for data frames.

use vstd::prelude::*;

use crate::wire::{
    be16_hi, be16_lo, be16_val, be32_byte, be32_val, i32_of_u32, lemma_be16_roundtrip,
    lemma_be32_roundtrip, push_be16, push_be32, read_be16, read_be32, i32_from_u32, u32_from_i32,
    u32_of_i32,
};

verus! {

/// Identifier of one multiplexed stream; odd ids belong to the client side,
/// even ids to the server side, and id 0 to the connection itself.
pub type StreamId = u32;

/// The four flag bits a frame header may carry.
#[derive(Clone, Copy, Debug, PartialEq, Eq, Structural)]
pub struct YamuxFlags {
    pub syn: bool,
    pub ack: bool,
    pub fin: bool,
    pub rst: bool,
}

/// The 16-bit wire encoding of the flag bits.
pub open spec fn flags_bits(f: YamuxFlags) -> u16 {
    ((if f.syn {
        1u16
    } else {
        0u16
    }) + (if f.ack {
        2u16
    } else {
        0u16
    }) + (if f.fin {
        4u16
    } else {
        0u16
    }) + (if f.rst {
        8u16
    } else {
        0u16
    })) as u16
}

/// The flag set denoted by a 16-bit wire value below 16.
pub open spec fn flags_of_bits(b: u16) -> YamuxFlags {
    YamuxFlags {
        syn: b % 2 == 1,
        ack: (b / 2) % 2 == 1,
        fin: (b / 4) % 2 == 1,
        rst: (b / 8) % 2 == 1,
    }
}

/// Decoding the encoded flag bits yields the flags, and the encoding is a
/// known bit pattern.
pub proof fn lemma_flags_roundtrip(f: YamuxFlags)
    ensures
        flags_bits(f) < 16,
        flags_of_bits(flags_bits(f)) == f,
{
}

impl YamuxFlags {
    /// The empty flag set.
    pub fn empty() -> (r: YamuxFlags)
        ensures
            r == (YamuxFlags { syn: false, ack: false, fin: false, rst: false }),
    {
        YamuxFlags { syn: false, ack: false, fin: false, rst: false }
    }

    /// The 16-bit wire encoding of these flags.
    pub fn bits(&self) -> (r: u16)
        ensures
            r == flags_bits(*self),
    {
        let mut r: u16 = 0;
        if self.syn {
            r = r + 1;
        }
        if self.ack {
            r = r + 2;
        }
        if self.fin {
            r = r + 4;
        }
        if self.rst {
            r = r + 8;
        }
        r
    }

    /// Decodes a 16-bit wire value; values with unknown bits are refused.
    pub fn from_bits(b: u16) -> (r: Option<YamuxFlags>)
        ensures
            r == if b < 16 {
                Some(flags_of_bits(b))
            } else {
                None::<YamuxFlags>
            },
    {
        if b < 16 {
            Some(
                YamuxFlags {
                    syn: b % 2 == 1,
                    ack: (b / 2) % 2 == 1,
                    fin: (b / 4) % 2 == 1,
                    rst: (b / 8) % 2 == 1,
                },
            )
        } else {
            None
        }
    }
}

/// Fatal session outcome reported by a go-away frame.
#[derive(Clone, Copy, Debug, PartialEq, Eq, Structural)]
pub enum YamuxSessionError {
    Protocol,
    Internal,
}

/// Why a byte sequence was rejected as a frame.
#[derive(Clone, Copy, Debug, PartialEq, Eq, Structural)]
pub enum YamuxFrameParseError {
    UnknownVersion(u8),
    UnknownFlags(u16),
    UnknownType(u8),
    UnknownErrorCode(u32),
}

/// The type-specific portion of a frame.
#[derive(Debug, PartialEq, Eq)]
pub enum YamuxFrameInner {
    Data(Vec<u8>),
    WindowUpdate { difference: i32 },
    Ping { opaque: i32 },
    GoAway(Result<(), YamuxSessionError>),
}

/// One parsed multiplexer frame.
#[derive(Debug, PartialEq, Eq)]
pub struct YamuxFrame {
    pub flags: YamuxFlags,
    pub stream_id: StreamId,
    pub inner: YamuxFrameInner,
}

/// The wire tag of the frame's type.
pub open spec fn frame_type(f: YamuxFrame) -> u8 {
    match f.inner {
        YamuxFrameInner::Data(_) => 0,
        YamuxFrameInner::WindowUpdate { .. } => 1,
        YamuxFrameInner::Ping { .. } => 2,
        YamuxFrameInner::GoAway(_) => 3,
    }
}

/// The wire code of a go-away outcome.
pub open spec fn goaway_code(r: Result<(), YamuxSessionError>) -> u32 {
    match r {
        Ok(()) => 0,
        Err(YamuxSessionError::Protocol) => 1,
        Err(YamuxSessionError::Internal) => 2,
    }
}

/// The value carried in the header's final 32-bit field: the payload length
/// for data, the signed delta for window updates, the opaque for pings and
/// the error code for go-away.
pub open spec fn frame_value(f: YamuxFrame) -> u32 {
    match f.inner {
        YamuxFrameInner::Data(d) => d@.len() as u32,
        YamuxFrameInner::WindowUpdate { difference } => u32_of_i32(difference),
        YamuxFrameInner::Ping { opaque } => u32_of_i32(opaque),
        YamuxFrameInner::GoAway(r) => goaway_code(r),
    }
}

/// A frame whose payload length fits the 32-bit header field.
pub open spec fn valid_frame(f: YamuxFrame) -> bool {
    f.inner matches YamuxFrameInner::Data(d) ==> d@.len() <= u32::MAX
}

/// The 12 header bytes of a frame.
pub open spec fn frame_header_bytes(f: YamuxFrame) -> Seq<u8> {
    seq![
        0u8,
        frame_type(f),
        be16_hi(flags_bits(f.flags)),
        be16_lo(flags_bits(f.flags)),
        be32_byte(f.stream_id, 0),
        be32_byte(f.stream_id, 1),
        be32_byte(f.stream_id, 2),
        be32_byte(f.stream_id, 3),
        be32_byte(frame_value(f), 0),
        be32_byte(frame_value(f), 1),
        be32_byte(frame_value(f), 2),
        be32_byte(frame_value(f), 3),
    ]
}

/// The complete wire form of a frame: header, then payload for data frames.
pub open spec fn frame_bytes(f: YamuxFrame) -> Seq<u8> {
    frame_header_bytes(f) + (match f.inner {
        YamuxFrameInner::Data(d) => d@,
        _ => Seq::<u8>::empty(),
    })
}

impl YamuxFrame {
    /// Serialises the frame into its wire form.
    pub fn into_bytes(self) -> (r: Vec<u8>)
        requires
            valid_frame(self),
        ensures
            r@ == frame_bytes(self),
    {
        let mut out: Vec<u8> = Vec::new();
        out.push(0u8);
        match self.inner {
            YamuxFrameInner::Data(mut d) => {
                out.push(0u8);
                push_be16(&mut out, self.flags.bits());
                push_be32(&mut out, self.stream_id);
                push_be32(&mut out, d.len() as u32);
                out.append(&mut d);
                proof {
                    assert(out@ =~= frame_bytes(self));
                }
                out
            },
            YamuxFrameInner::WindowUpdate { difference } => {
                out.push(1u8);
                push_be16(&mut out, self.flags.bits());
                push_be32(&mut out, self.stream_id);
                let v = u32_from_i32(difference);
                push_be32(&mut out, v);
                proof {
                    assert(out@ =~= frame_bytes(self));
                }
                out
            },
            YamuxFrameInner::Ping { opaque } => {
                out.push(2u8);
                push_be16(&mut out, self.flags.bits());
                push_be32(&mut out, self.stream_id);
                let v = u32_from_i32(opaque);
                push_be32(&mut out, v);
                proof {
                    assert(out@ =~= frame_bytes(self));
                }
                out
            },
            YamuxFrameInner::GoAway(res) => {
                out.push(3u8);
                push_be16(&mut out, self.flags.bits());
                push_be32(&mut out, self.stream_id);
                let code: u32 = match res {
                    Ok(()) => 0,
                    Err(YamuxSessionError::Protocol) => 1,
                    Err(YamuxSessionError::Internal) => 2,
                };
                push_be32(&mut out, code);
                proof {
                    assert(out@ =~= frame_bytes(self));
                }
                out
            },
        }
    }
}

/// A connection-level ping: a request if `response` is false, the matching
/// acknowledgement if it is true.
#[derive(Clone, Copy, Debug, PartialEq, Eq, Structural)]
pub struct YamuxPing {
    pub stream_id: StreamId,
    pub opaque: i32,
    pub response: bool,
}

/// The flags a ping frame carries: ACK on a response, SYN on a fresh
/// connection-level request, nothing otherwise.
pub open spec fn ping_flags(p: YamuxPing) -> YamuxFlags {
    if p.response {
        YamuxFlags { syn: false, ack: true, fin: false, rst: false }
    } else if p.stream_id == 0 {
        YamuxFlags { syn: true, ack: false, fin: false, rst: false }
    } else {
        YamuxFlags { syn: false, ack: false, fin: false, rst: false }
    }
}

impl YamuxPing {
    /// Builds the wire frame that carries this ping.
    pub fn into_frame(self) -> (r: YamuxFrame)
        ensures
            r == (YamuxFrame {
                flags: ping_flags(self),
                stream_id: self.stream_id,
                inner: YamuxFrameInner::Ping { opaque: self.opaque },
            }),
    {
        let YamuxPing { stream_id, opaque, response } = self;
        YamuxFrame {
            flags: if response {
                YamuxFlags { syn: false, ack: true, fin: false, rst: false }
            } else if stream_id == 0 {
                YamuxFlags { syn: true, ack: false, fin: false, rst: false }
            } else {
                YamuxFlags { syn: false, ack: false, fin: false, rst: false }
            },
            stream_id,
            inner: YamuxFrameInner::Ping { opaque },
        }
    }
}

/// Outcome of trying to parse one frame from the front of a byte buffer.
#[derive(Debug, PartialEq, Eq)]
pub enum YamuxFrameParseResult {
    /// Too few bytes so far; wait for more.
    Incomplete,
    /// One whole frame, and how many bytes of the buffer it used.
    Parsed { frame: YamuxFrame, consumed: usize },
    /// The buffer violates the framing rules.
    Failed(YamuxFrameParseError),
}

/// The version byte of a buffered header.
pub open spec fn header_version(b: Seq<u8>) -> u8 {
    b[0]
}

/// The type byte of a buffered header.
pub open spec fn header_type(b: Seq<u8>) -> u8 {
    b[1]
}

/// The 16-bit flag field of a buffered header.
pub open spec fn header_flags_bits(b: Seq<u8>) -> u16 {
    be16_val(b[2], b[3])
}

/// The stream id field of a buffered header.
pub open spec fn header_stream_id(b: Seq<u8>) -> u32 {
    be32_val(b[4], b[5], b[6], b[7])
}

/// The final 32-bit field of a buffered header.
pub open spec fn header_value(b: Seq<u8>) -> u32 {
    be32_val(b[8], b[9], b[10], b[11])
}

/// The first framing violation in a buffered header, if any: version, then
/// flag bits, then type, then go-away code.
pub open spec fn spec_parse_failure(b: Seq<u8>) -> Option<YamuxFrameParseError>
    recommends
        b.len() >= 12,
{
    if header_version(b) != 0 {
        Some(YamuxFrameParseError::UnknownVersion(header_version(b)))
    } else if header_flags_bits(b) >= 16 {
        Some(YamuxFrameParseError::UnknownFlags(header_flags_bits(b)))
    } else if header_type(b) > 3 {
        Some(YamuxFrameParseError::UnknownType(header_type(b)))
    } else if header_type(b) == 3 && header_value(b) > 2 {
        Some(YamuxFrameParseError::UnknownErrorCode(header_value(b)))
    } else {
        None
    }
}

/// A buffer that holds no whole frame yet: a short header, or a data frame
/// whose payload has not fully arrived.
pub open spec fn spec_incomplete(b: Seq<u8>) -> bool {
    b.len() < 12 || (spec_parse_failure(b) is None && header_type(b) == 0 && b.len() < 12
        + header_value(b))
}

/// The frame `f`, consuming `n` bytes, is what the buffer `b` parses to.
pub open spec fn parses_to(b: Seq<u8>, f: YamuxFrame, n: int) -> bool {
    &&& b.len() >= 12
    &&& spec_parse_failure(b) is None
    &&& f.stream_id == header_stream_id(b)
    &&& f.flags == flags_of_bits(header_flags_bits(b))
    &&& match f.inner {
        YamuxFrameInner::Data(d) => {
            &&& header_type(b) == 0
            &&& b.len() >= 12 + header_value(b)
            &&& d@ == b.subrange(12, 12 + header_value(b) as int)
            &&& n == 12 + header_value(b)
        },
        YamuxFrameInner::WindowUpdate { difference } => {
            &&& header_type(b) == 1
            &&& difference == i32_of_u32(header_value(b))
            &&& n == 12
        },
        YamuxFrameInner::Ping { opaque } => {
            &&& header_type(b) == 2
            &&& opaque == i32_of_u32(header_value(b))
            &&& n == 12
        },
        YamuxFrameInner::GoAway(res) => {
            &&& header_type(b) == 3
            &&& goaway_code(res) == header_value(b)
            &&& n == 12
        },
    }
}

/// Tries to parse one frame from the front of `bytes`.
pub fn parse(bytes: &Vec<u8>) -> (r: YamuxFrameParseResult)
    ensures
        r is Incomplete <==> spec_incomplete(bytes@),
        r is Failed <==> (bytes@.len() >= 12 && spec_parse_failure(bytes@) is Some),
        r matches YamuxFrameParseResult::Failed(e) ==> spec_parse_failure(bytes@) == Some(e),
        r matches YamuxFrameParseResult::Parsed { frame, consumed } ==> parses_to(
            bytes@,
            frame,
            consumed as int,
        ),
{
    if bytes.len() < 12 {
        return YamuxFrameParseResult::Incomplete;
    }
    let version = bytes[0];
    if version != 0 {
        return YamuxFrameParseResult::Failed(YamuxFrameParseError::UnknownVersion(version));
    }
    let flag_bits = read_be16(bytes[2], bytes[3]);
    let flags = match YamuxFlags::from_bits(flag_bits) {
        Some(flags) => flags,
        None => {
            return YamuxFrameParseResult::Failed(YamuxFrameParseError::UnknownFlags(flag_bits));
        },
    };
    let frame_kind = bytes[1];
    if frame_kind > 3 {
        return YamuxFrameParseResult::Failed(YamuxFrameParseError::UnknownType(frame_kind));
    }
    let stream_id = read_be32(bytes[4], bytes[5], bytes[6], bytes[7]);
    let value = read_be32(bytes[8], bytes[9], bytes[10], bytes[11]);
    if frame_kind == 0 {
        if (bytes.len() as u64) < 12u64 + (value as u64) {
            return YamuxFrameParseResult::Incomplete;
        }
        let len = value as usize;
        let mut payload: Vec<u8> = Vec::new();
        let mut i: usize = 0;
        while i < len
            invariant
                len == header_value(bytes@),
                bytes@.len() >= 12 + len,
                bytes@.len() <= usize::MAX,
                i <= len,
                payload@ == bytes@.subrange(12, 12 + i as int),
            decreases len - i,
        {
            payload.push(bytes[12 + i]);
            proof {
                assert(payload@ =~= bytes@.subrange(12, 12 + (i + 1) as int));
            }
            i = i + 1;
        }
        YamuxFrameParseResult::Parsed {
            frame: YamuxFrame { flags, stream_id, inner: YamuxFrameInner::Data(payload) },
            consumed: 12 + len,
        }
    } else if frame_kind == 1 {
        let difference = i32_from_u32(value);
        YamuxFrameParseResult::Parsed {
            frame: YamuxFrame { flags, stream_id, inner: YamuxFrameInner::WindowUpdate { difference } },
            consumed: 12,
        }
    } else if frame_kind == 2 {
        let opaque = i32_from_u32(value);
        YamuxFrameParseResult::Parsed {
            frame: YamuxFrame { flags, stream_id, inner: YamuxFrameInner::Ping { opaque } },
            consumed: 12,
        }
    } else {
        let res: Result<(), YamuxSessionError> = if value == 0 {
            Ok(())
        } else if value == 1 {
            Err(YamuxSessionError::Protocol)
        } else if value == 2 {
            Err(YamuxSessionError::Internal)
        } else {
            return YamuxFrameParseResult::Failed(YamuxFrameParseError::UnknownErrorCode(value));
        };
        YamuxFrameParseResult::Parsed {
            frame: YamuxFrame { flags, stream_id, inner: YamuxFrameInner::GoAway(res) },
            consumed: 12,
        }
    }
}

/// Round trip: the wire form of any valid frame parses back to exactly that
/// frame, consuming all of its bytes.
pub proof fn lemma_frame_roundtrip(f: YamuxFrame)
    requires
        valid_frame(f),
    ensures
        parses_to(frame_bytes(f), f, frame_bytes(f).len() as int),
{
    let b = frame_bytes(f);
    lemma_be16_roundtrip(flags_bits(f.flags));
    lemma_flags_roundtrip(f.flags);
    lemma_be32_roundtrip(f.stream_id);
    lemma_be32_roundtrip(frame_value(f));
    assert(header_flags_bits(b) == flags_bits(f.flags));
    assert(header_stream_id(b) == f.stream_id);
    assert(header_value(b) == frame_value(f));
    match f.inner {
        YamuxFrameInner::Data(d) => {
            assert(d@ =~= b.subrange(12, 12 + header_value(b) as int));
        },
        YamuxFrameInner::WindowUpdate { difference } => {
            crate::wire::lemma_i32_u32_roundtrip(difference);
        },
        YamuxFrameInner::Ping { opaque } => {
            crate::wire::lemma_i32_u32_roundtrip(opaque);
        },
        YamuxFrameInner::GoAway(res) => {},
    }
}

} // verus!
