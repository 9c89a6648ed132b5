//! Classical call/response RPC riding on a dedicated multiplexed stream:
//! actions that route queries and responses to peers and streams.

use vstd::prelude::*;

use crate::ids::PeerId;
use crate::yamux_frame::StreamId;

verus! {

/// A transport address, as plain values.
#[derive(Clone, Copy, Debug, PartialEq, Eq, Structural)]
pub struct SocketAddress {
    pub ip: u32,
    pub port: u16,
}

/// Header of an RPC query.
#[derive(Clone, Copy, Debug, PartialEq, Eq, Structural)]
pub struct QueryHeader {
    pub tag: u64,
    pub version: i32,
    pub id: i64,
}

/// Header of an RPC response.
#[derive(Clone, Copy, Debug, PartialEq, Eq, Structural)]
pub struct ResponseHeader {
    pub id: i64,
}

/// One RPC wire message.
#[derive(Debug, PartialEq, Eq)]
pub enum RpcMessage {
    Handshake,
    Heartbeat,
    Query { header: QueryHeader, bytes: Vec<u8> },
    Response { header: ResponseHeader, bytes: Vec<u8> },
}

/// An action of the RPC layer.
#[derive(Debug, PartialEq, Eq)]
pub enum P2pNetworkRpcAction {
    Init { addr: SocketAddress, peer_id: PeerId, stream_id: StreamId, incoming: bool },
    IncomingData { addr: SocketAddress, peer_id: PeerId, stream_id: StreamId, data: Vec<u8> },
    IncomingMessage {
        addr: SocketAddress,
        peer_id: PeerId,
        stream_id: StreamId,
        message: RpcMessage,
    },
    PrunePending { peer_id: PeerId, stream_id: StreamId },
    OutgoingQuery { peer_id: PeerId, query: QueryHeader, data: Vec<u8> },
    OutgoingResponse { peer_id: PeerId, response: ResponseHeader, data: Vec<u8> },
    OutgoingData {
        addr: SocketAddress,
        peer_id: PeerId,
        stream_id: StreamId,
        data: Vec<u8>,
        fin: bool,
    },
}

/// Which stream an RPC action concerns: one exact stream, or whichever
/// stream serves the direction.
#[derive(Clone, Copy, Debug, PartialEq, Eq, Structural)]
pub enum RpcStreamId {
    Exact(StreamId),
    AnyIncoming,
    AnyOutgoing,
}

/// The stream an action addresses: outgoing queries and responses go to
/// whatever outgoing stream is open, everything else names its stream.
pub open spec fn spec_action_stream_id(a: P2pNetworkRpcAction) -> RpcStreamId {
    match a {
        P2pNetworkRpcAction::Init { stream_id, .. } => RpcStreamId::Exact(stream_id),
        P2pNetworkRpcAction::IncomingData { stream_id, .. } => RpcStreamId::Exact(stream_id),
        P2pNetworkRpcAction::IncomingMessage { stream_id, .. } => RpcStreamId::Exact(stream_id),
        P2pNetworkRpcAction::PrunePending { stream_id, .. } => RpcStreamId::Exact(stream_id),
        P2pNetworkRpcAction::OutgoingQuery { .. } => RpcStreamId::AnyOutgoing,
        P2pNetworkRpcAction::OutgoingResponse { .. } => RpcStreamId::AnyOutgoing,
        P2pNetworkRpcAction::OutgoingData { stream_id, .. } => RpcStreamId::Exact(stream_id),
    }
}

/// The peer an action addresses.
pub open spec fn spec_action_peer_id(a: P2pNetworkRpcAction) -> PeerId {
    match a {
        P2pNetworkRpcAction::Init { peer_id, .. } => peer_id,
        P2pNetworkRpcAction::IncomingData { peer_id, .. } => peer_id,
        P2pNetworkRpcAction::IncomingMessage { peer_id, .. } => peer_id,
        P2pNetworkRpcAction::PrunePending { peer_id, .. } => peer_id,
        P2pNetworkRpcAction::OutgoingQuery { peer_id, .. } => peer_id,
        P2pNetworkRpcAction::OutgoingResponse { peer_id, .. } => peer_id,
        P2pNetworkRpcAction::OutgoingData { peer_id, .. } => peer_id,
    }
}

impl P2pNetworkRpcAction {
    /// The stream this action addresses.
    pub fn stream_id(&self) -> (r: RpcStreamId)
        ensures
            r == spec_action_stream_id(*self),
    {
        match self {
            Self::Init { stream_id, .. } => RpcStreamId::Exact(*stream_id),
            Self::IncomingData { stream_id, .. } => RpcStreamId::Exact(*stream_id),
            Self::IncomingMessage { stream_id, .. } => RpcStreamId::Exact(*stream_id),
            Self::PrunePending { stream_id, .. } => RpcStreamId::Exact(*stream_id),
            Self::OutgoingQuery { .. } => RpcStreamId::AnyOutgoing,
            Self::OutgoingResponse { .. } => RpcStreamId::AnyOutgoing,
            Self::OutgoingData { stream_id, .. } => RpcStreamId::Exact(*stream_id),
        }
    }

    /// The peer this action addresses.
    pub fn peer_id(&self) -> (r: &PeerId)
        ensures
            *r == spec_action_peer_id(*self),
    {
        match self {
            Self::Init { peer_id, .. } => peer_id,
            Self::IncomingData { peer_id, .. } => peer_id,
            Self::IncomingMessage { peer_id, .. } => peer_id,
            Self::PrunePending { peer_id, .. } => peer_id,
            Self::OutgoingQuery { peer_id, .. } => peer_id,
            Self::OutgoingResponse { peer_id, .. } => peer_id,
            Self::OutgoingData { peer_id, .. } => peer_id,
        }
    }

    /// Every RPC action is unconditionally enabled: ordering and stream
    /// lookup are resolved by the reducer itself.
    pub fn is_enabled(&self) -> (r: bool)
        ensures
            r,
    {
        match self {
            Self::Init { .. } => true,
            Self::IncomingData { .. } => true,
            Self::IncomingMessage { .. } => true,
            Self::PrunePending { .. } => true,
            Self::OutgoingQuery { .. } => true,
            Self::OutgoingResponse { .. } => true,
            Self::OutgoingData { .. } => true,
        }
    }
}

} // verus!
