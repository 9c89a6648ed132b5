//! Byte framing for streaming-RPC channel messages: a one-byte message tag,
//! the big-endian request id, and the tag-specific payload.

use vstd::prelude::*;

use crate::ids::RpcId;
use crate::streaming_rpc::{
    P2pStreamingRpcRequest, P2pStreamingRpcResponsePart, StreamingRpcChannelMsg,
};
use crate::wire::{be64_byte, be64_val, lemma_be64_roundtrip, push_be64, read_be64};

verus! {

/// The eight big-endian bytes of a 64-bit value, as a sequence.
pub open spec fn be64_bytes(x: u64) -> Seq<u8> {
    seq![
        be64_byte(x, 0),
        be64_byte(x, 1),
        be64_byte(x, 2),
        be64_byte(x, 3),
        be64_byte(x, 4),
        be64_byte(x, 5),
        be64_byte(x, 6),
        be64_byte(x, 7),
    ]
}

/// The 64-bit value held at offset `at` of a byte sequence.
pub open spec fn be64_at(b: Seq<u8>, at: int) -> u64 {
    be64_val(b[at], b[at + 1], b[at + 2], b[at + 3], b[at + 4], b[at + 5], b[at + 6], b[at + 7])
}

/// The wire tag of a response part.
pub open spec fn part_tag(p: P2pStreamingRpcResponsePart) -> u8 {
    match p {
        P2pStreamingRpcResponsePart::Base { .. } => 0,
        P2pStreamingRpcResponsePart::ScanStateBase { .. } => 1,
        P2pStreamingRpcResponsePart::PreviousIncompleteZkappUpdates { .. } => 2,
        P2pStreamingRpcResponsePart::ScanStateTree { .. } => 3,
    }
}

/// The payload carried by a response part.
pub open spec fn part_payload(p: P2pStreamingRpcResponsePart) -> u64 {
    match p {
        P2pStreamingRpcResponsePart::Base { payload } => payload,
        P2pStreamingRpcResponsePart::ScanStateBase { payload } => payload,
        P2pStreamingRpcResponsePart::PreviousIncompleteZkappUpdates { payload } => payload,
        P2pStreamingRpcResponsePart::ScanStateTree { payload } => payload,
    }
}

/// The response part denoted by a wire tag below 4 and a payload.
pub open spec fn part_of(tag: u8, payload: u64) -> P2pStreamingRpcResponsePart {
    if tag == 0 {
        P2pStreamingRpcResponsePart::Base { payload }
    } else if tag == 1 {
        P2pStreamingRpcResponsePart::ScanStateBase { payload }
    } else if tag == 2 {
        P2pStreamingRpcResponsePart::PreviousIncompleteZkappUpdates { payload }
    } else {
        P2pStreamingRpcResponsePart::ScanStateTree { payload }
    }
}

/// The wire form of a channel message.
pub open spec fn msg_bytes(m: StreamingRpcChannelMsg) -> Seq<u8> {
    match m {
        StreamingRpcChannelMsg::Request(id, P2pStreamingRpcRequest::StagedLedgerParts(hash)) =>
            seq![0u8] + be64_bytes(id) + seq![0u8] + be64_bytes(hash),
        StreamingRpcChannelMsg::Next(id) => seq![1u8] + be64_bytes(id),
        StreamingRpcChannelMsg::Response(id, None) => seq![2u8] + be64_bytes(id) + seq![0u8],
        StreamingRpcChannelMsg::Response(id, Some(part)) => seq![2u8] + be64_bytes(id) + seq![
            1u8,
            part_tag(part),
        ] + be64_bytes(part_payload(part)),
    }
}

/// The message denoted by a whole byte buffer, if it is well-formed.
pub open spec fn spec_decode_msg(b: Seq<u8>) -> Option<StreamingRpcChannelMsg> {
    if b.len() >= 1 && b[0] == 0 {
        if b.len() == 18 && b[9] == 0 {
            Some(
                StreamingRpcChannelMsg::Request(
                    be64_at(b, 1),
                    P2pStreamingRpcRequest::StagedLedgerParts(be64_at(b, 10)),
                ),
            )
        } else {
            None
        }
    } else if b.len() >= 1 && b[0] == 1 {
        if b.len() == 9 {
            Some(StreamingRpcChannelMsg::Next(be64_at(b, 1)))
        } else {
            None
        }
    } else if b.len() >= 1 && b[0] == 2 {
        if b.len() == 10 && b[9] == 0 {
            Some(StreamingRpcChannelMsg::Response(be64_at(b, 1), None))
        } else if b.len() == 19 && b[9] == 1 && b[10] <= 3 {
            Some(
                StreamingRpcChannelMsg::Response(
                    be64_at(b, 1),
                    Some(part_of(b[10], be64_at(b, 11))),
                ),
            )
        } else {
            None
        }
    } else {
        None
    }
}

/// Serialises a channel message into its wire form.
pub fn encode_msg(m: &StreamingRpcChannelMsg) -> (r: Vec<u8>)
    ensures
        r@ == msg_bytes(*m),
{
    let mut out: Vec<u8> = Vec::new();
    match m {
        StreamingRpcChannelMsg::Request(id, P2pStreamingRpcRequest::StagedLedgerParts(hash)) => {
            out.push(0u8);
            push_be64(&mut out, *id);
            out.push(0u8);
            push_be64(&mut out, *hash);
        },
        StreamingRpcChannelMsg::Next(id) => {
            out.push(1u8);
            push_be64(&mut out, *id);
        },
        StreamingRpcChannelMsg::Response(id, None) => {
            out.push(2u8);
            push_be64(&mut out, *id);
            out.push(0u8);
        },
        StreamingRpcChannelMsg::Response(id, Some(part)) => {
            out.push(2u8);
            push_be64(&mut out, *id);
            out.push(1u8);
            let (tag, payload): (u8, u64) = match part {
                P2pStreamingRpcResponsePart::Base { payload } => (0, *payload),
                P2pStreamingRpcResponsePart::ScanStateBase { payload } => (1, *payload),
                P2pStreamingRpcResponsePart::PreviousIncompleteZkappUpdates { payload } => (
                    2,
                    *payload,
                ),
                P2pStreamingRpcResponsePart::ScanStateTree { payload } => (3, *payload),
            };
            out.push(tag);
            push_be64(&mut out, payload);
        },
    }
    proof {
        assert(out@ =~= msg_bytes(*m));
    }
    out
}

/// Parses a whole byte buffer as one channel message; buffers that are not
/// exactly one well-formed message are refused.
pub fn decode_msg(bytes: &Vec<u8>) -> (r: Option<StreamingRpcChannelMsg>)
    ensures
        r == spec_decode_msg(bytes@),
{
    if bytes.len() < 1 {
        return None;
    }
    let tag = bytes[0];
    if tag == 0 {
        if bytes.len() == 18 && bytes[9] == 0 {
            let id = read_be64(
                bytes[1],
                bytes[2],
                bytes[3],
                bytes[4],
                bytes[5],
                bytes[6],
                bytes[7],
                bytes[8],
            );
            let hash = read_be64(
                bytes[10],
                bytes[11],
                bytes[12],
                bytes[13],
                bytes[14],
                bytes[15],
                bytes[16],
                bytes[17],
            );
            Some(
                StreamingRpcChannelMsg::Request(
                    id,
                    P2pStreamingRpcRequest::StagedLedgerParts(hash),
                ),
            )
        } else {
            None
        }
    } else if tag == 1 {
        if bytes.len() == 9 {
            let id = read_be64(
                bytes[1],
                bytes[2],
                bytes[3],
                bytes[4],
                bytes[5],
                bytes[6],
                bytes[7],
                bytes[8],
            );
            Some(StreamingRpcChannelMsg::Next(id))
        } else {
            None
        }
    } else if tag == 2 {
        if bytes.len() == 10 && bytes[9] == 0 {
            let id = read_be64(
                bytes[1],
                bytes[2],
                bytes[3],
                bytes[4],
                bytes[5],
                bytes[6],
                bytes[7],
                bytes[8],
            );
            Some(StreamingRpcChannelMsg::Response(id, None))
        } else if bytes.len() == 19 && bytes[9] == 1 && bytes[10] <= 3 {
            let id = read_be64(
                bytes[1],
                bytes[2],
                bytes[3],
                bytes[4],
                bytes[5],
                bytes[6],
                bytes[7],
                bytes[8],
            );
            let payload = read_be64(
                bytes[11],
                bytes[12],
                bytes[13],
                bytes[14],
                bytes[15],
                bytes[16],
                bytes[17],
                bytes[18],
            );
            let ptag = bytes[10];
            let part = if ptag == 0 {
                P2pStreamingRpcResponsePart::Base { payload }
            } else if ptag == 1 {
                P2pStreamingRpcResponsePart::ScanStateBase { payload }
            } else if ptag == 2 {
                P2pStreamingRpcResponsePart::PreviousIncompleteZkappUpdates { payload }
            } else {
                P2pStreamingRpcResponsePart::ScanStateTree { payload }
            };
            Some(StreamingRpcChannelMsg::Response(id, Some(part)))
        } else {
            None
        }
    } else {
        None
    }
}

/// Round trip: serialising any channel message and decoding the bytes
/// yields the original message.
pub proof fn lemma_msg_roundtrip(m: StreamingRpcChannelMsg)
    ensures
        spec_decode_msg(msg_bytes(m)) == Some(m),
{
    let b = msg_bytes(m);
    match m {
        StreamingRpcChannelMsg::Request(id, P2pStreamingRpcRequest::StagedLedgerParts(hash)) => {
            lemma_be64_roundtrip(id);
            lemma_be64_roundtrip(hash);
            assert(be64_at(b, 1) == id);
            assert(be64_at(b, 10) == hash);
        },
        StreamingRpcChannelMsg::Next(id) => {
            lemma_be64_roundtrip(id);
            assert(be64_at(b, 1) == id);
        },
        StreamingRpcChannelMsg::Response(id, None) => {
            lemma_be64_roundtrip(id);
            assert(be64_at(b, 1) == id);
        },
        StreamingRpcChannelMsg::Response(id, Some(part)) => {
            lemma_be64_roundtrip(id);
            lemma_be64_roundtrip(part_payload(part));
            assert(be64_at(b, 1) == id);
            assert(be64_at(b, 11) == part_payload(part));
            assert(part_of(part_tag(part), part_payload(part)) == part);
        },
    }
}

} // verus!
