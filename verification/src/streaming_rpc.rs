//! Streaming-RPC channel: a pull protocol that moves one large structured
//! response piece by piece.  The requester sends `Request(id, req)` and then
//! `Next(id)` after each part; the responder answers with
//! `Response(id, Some(part))` in the canonical order and terminates with
//! `Response(id, None)`.  Each side keeps one state machine per peer.

use vstd::prelude::*;

use crate::ids::{LedgerHash, PeerId, RpcId, Timestamp};

verus! {

/// A request for one large artifact.
#[derive(Clone, Copy, Debug, PartialEq, Eq, Structural)]
pub enum P2pStreamingRpcRequest {
    StagedLedgerParts(LedgerHash),
}

/// One part of a staged-ledger snapshot, in canonical streaming order:
/// base, scan-state base, previous-incomplete-zkapp-updates, then one part
/// per scan-state tree.
#[derive(Clone, Copy, Debug, PartialEq, Eq, Structural)]
pub enum P2pStreamingRpcResponsePart {
    Base { payload: u64 },
    ScanStateBase { payload: u64 },
    PreviousIncompleteZkappUpdates { payload: u64 },
    ScanStateTree { payload: u64 },
}

/// A whole staged-ledger snapshot, assembled from its parts.
#[derive(Debug, PartialEq, Eq)]
pub struct StagedLedgerPartsData {
    pub base: u64,
    pub scan_state_base: u64,
    pub previous_incomplete: u64,
    pub trees: Vec<u64>,
}

/// A whole response.
#[derive(Debug, PartialEq, Eq)]
pub enum P2pStreamingRpcResponseFull {
    StagedLedgerParts(StagedLedgerPartsData),
}

/// A message of the streaming-RPC channel.
#[derive(Clone, Copy, Debug, PartialEq, Eq, Structural)]
pub enum StreamingRpcChannelMsg {
    Request(RpcId, P2pStreamingRpcRequest),
    Next(RpcId),
    Response(RpcId, Option<P2pStreamingRpcResponsePart>),
}

/// Requester-side progress through the canonical part order.  A `Pending`
/// position means the next part has been asked for and not yet arrived.
#[derive(Debug, PartialEq, Eq)]
pub enum StagedLedgerPartsReceiveProgress {
    BasePending { time: Timestamp },
    BaseReceived { time: Timestamp, base: u64 },
    ScanStateBasePending { time: Timestamp, base: u64 },
    ScanStateBaseReceived { time: Timestamp, base: u64, scan_state_base: u64 },
    PreviousIncompleteZkappUpdatesPending { time: Timestamp, base: u64, scan_state_base: u64 },
    PreviousIncompleteZkappUpdatesReceived {
        time: Timestamp,
        base: u64,
        scan_state_base: u64,
        previous_incomplete: u64,
    },
    ScanStateTreesReceiving {
        time: Timestamp,
        base: u64,
        scan_state_base: u64,
        previous_incomplete: u64,
        trees: Vec<u64>,
        pending: bool,
    },
}

/// Responder-side progress: waiting for the ledger read, then one step per
/// part sent, then done.  `tree_index` counts the trees already sent.
#[derive(Debug, PartialEq, Eq)]
pub enum StagedLedgerPartsSendProgress {
    LedgerGetIdle { time: Timestamp },
    LedgerGetPending { time: Timestamp },
    LedgerGetSuccess { time: Timestamp, data: StagedLedgerPartsData },
    BaseSent { time: Timestamp, data: StagedLedgerPartsData },
    ScanStateBaseSent { time: Timestamp, data: StagedLedgerPartsData },
    PreviousIncompleteZkappUpdatesSent { time: Timestamp, data: StagedLedgerPartsData },
    ScanStateTreesSending { time: Timestamp, data: StagedLedgerPartsData, tree_index: usize },
    Success { time: Timestamp },
}

/// Requester-side (outbound request) state.
#[derive(Debug, PartialEq, Eq)]
pub enum P2pStreamingRpcLocalState {
    WaitingForRequest { time: Timestamp },
    Requested {
        time: Timestamp,
        id: RpcId,
        request: P2pStreamingRpcRequest,
        progress: StagedLedgerPartsReceiveProgress,
    },
    Responded { time: Timestamp, id: RpcId, request: P2pStreamingRpcRequest },
}

/// Responder-side (inbound request) state.
#[derive(Debug, PartialEq, Eq)]
pub enum P2pStreamingRpcRemoteState {
    WaitingForRequest { time: Timestamp },
    Requested {
        time: Timestamp,
        id: RpcId,
        request: P2pStreamingRpcRequest,
        progress: StagedLedgerPartsSendProgress,
    },
    Responded { time: Timestamp, id: RpcId, request: P2pStreamingRpcRequest },
}

/// Per-peer channel state.
#[derive(Debug, PartialEq, Eq)]
pub enum P2pChannelsStreamingRpcState {
    Disabled,
    Init { time: Timestamp },
    Pending { time: Timestamp },
    Ready {
        time: Timestamp,
        local: P2pStreamingRpcLocalState,
        remote: P2pStreamingRpcRemoteState,
        remote_last_responded: Timestamp,
    },
}

/// An action delivered to the channel's reducer.
#[derive(Debug, PartialEq, Eq)]
pub enum P2pChannelsStreamingRpcAction {
    Init { peer_id: PeerId },
    Pending { peer_id: PeerId },
    Ready { peer_id: PeerId },
    RequestSend { peer_id: PeerId, id: RpcId, request: P2pStreamingRpcRequest },
    Timeout { peer_id: PeerId, id: RpcId },
    ResponseNextPartGet { peer_id: PeerId, id: RpcId },
    ResponsePartReceived { peer_id: PeerId, id: RpcId, response: P2pStreamingRpcResponsePart },
    ResponseReceived { peer_id: PeerId, id: RpcId, response: Option<P2pStreamingRpcResponseFull> },
    RequestReceived { peer_id: PeerId, id: RpcId, request: P2pStreamingRpcRequest },
    ResponsePending { peer_id: PeerId },
    ResponseSendInit { peer_id: PeerId, id: RpcId, response: Option<P2pStreamingRpcResponseFull> },
    ResponsePartNextSend { peer_id: PeerId, id: RpcId },
    ResponsePartSend { peer_id: PeerId, id: RpcId, response: P2pStreamingRpcResponsePart },
    ResponseSent { peer_id: PeerId, id: RpcId },
}

/// What the reducer asks the outer runtime or the dispatcher to do next.
#[derive(Debug, PartialEq, Eq)]
pub enum StreamingRpcEffect {
    /// Open the underlying channel for the peer.
    InitChannel { peer_id: PeerId },
    /// Send a channel message to the peer.
    MessageSend { peer_id: PeerId, msg: StreamingRpcChannelMsg },
    /// Tell the node the channel is ready.
    ReadyCallback { peer_id: PeerId },
    /// Tell the node an outstanding request timed out.
    TimeoutCallback { peer_id: PeerId, id: RpcId },
    /// Hand the assembled response to the node.
    ResponseReceivedCallback {
        peer_id: PeerId,
        id: RpcId,
        response: Option<P2pStreamingRpcResponseFull>,
    },
    /// Dispatch a follow-up action through the enabling-condition filter.
    Dispatch(P2pChannelsStreamingRpcAction),
    /// An internal invariant was violated; the action was dropped.
    BugCondition,
}

// --- requester-side progress transitions -------------------------------

/// The next part has been asked for and not yet arrived.
pub open spec fn recv_is_part_pending(p: StagedLedgerPartsReceiveProgress) -> bool {
    match p {
        StagedLedgerPartsReceiveProgress::BasePending { .. } => true,
        StagedLedgerPartsReceiveProgress::ScanStateBasePending { .. } => true,
        StagedLedgerPartsReceiveProgress::PreviousIncompleteZkappUpdatesPending { .. } => true,
        StagedLedgerPartsReceiveProgress::ScanStateTreesReceiving { pending, .. } => pending,
        _ => false,
    }
}

/// A part just arrived and the next one may be asked for.
pub open spec fn recv_can_set_next_pending(p: StagedLedgerPartsReceiveProgress) -> bool {
    match p {
        StagedLedgerPartsReceiveProgress::BaseReceived { .. } => true,
        StagedLedgerPartsReceiveProgress::ScanStateBaseReceived { .. } => true,
        StagedLedgerPartsReceiveProgress::PreviousIncompleteZkappUpdatesReceived { .. } => true,
        StagedLedgerPartsReceiveProgress::ScanStateTreesReceiving { pending, .. } => !pending,
        _ => false,
    }
}

/// `p1` is `p0` after asking for the next part at time `t`.
pub open spec fn recv_set_next_pending_rel(
    p0: StagedLedgerPartsReceiveProgress,
    t: Timestamp,
    p1: StagedLedgerPartsReceiveProgress,
) -> bool {
    match p0 {
        StagedLedgerPartsReceiveProgress::BaseReceived { base, .. } => p1
            == (StagedLedgerPartsReceiveProgress::ScanStateBasePending { time: t, base }),
        StagedLedgerPartsReceiveProgress::ScanStateBaseReceived { base, scan_state_base, .. } => p1
            == (StagedLedgerPartsReceiveProgress::PreviousIncompleteZkappUpdatesPending {
            time: t,
            base,
            scan_state_base,
        }),
        StagedLedgerPartsReceiveProgress::PreviousIncompleteZkappUpdatesReceived {
            base,
            scan_state_base,
            previous_incomplete,
            ..
        } => {
            &&& p1 matches StagedLedgerPartsReceiveProgress::ScanStateTreesReceiving {
                time: t1,
                base: b1,
                scan_state_base: s1,
                previous_incomplete: i1,
                trees: tr1,
                pending: pd1,
            }
            &&& t1 == t
            &&& b1 == base
            &&& s1 == scan_state_base
            &&& i1 == previous_incomplete
            &&& tr1@ == Seq::<u64>::empty()
            &&& pd1
        },
        StagedLedgerPartsReceiveProgress::ScanStateTreesReceiving {
            base,
            scan_state_base,
            previous_incomplete,
            trees,
            pending,
            ..
        } => {
            &&& !pending
            &&& p1 == (StagedLedgerPartsReceiveProgress::ScanStateTreesReceiving {
                time: t,
                base,
                scan_state_base,
                previous_incomplete,
                trees,
                pending: true,
            })
        },
        _ => false,
    }
}

/// The arrived part is the one the requester is waiting for.
pub open spec fn recv_can_update(
    p0: StagedLedgerPartsReceiveProgress,
    part: P2pStreamingRpcResponsePart,
) -> bool {
    match p0 {
        StagedLedgerPartsReceiveProgress::BasePending { .. } => part matches
            P2pStreamingRpcResponsePart::Base { .. },
        StagedLedgerPartsReceiveProgress::ScanStateBasePending { .. } => part matches
            P2pStreamingRpcResponsePart::ScanStateBase { .. },
        StagedLedgerPartsReceiveProgress::PreviousIncompleteZkappUpdatesPending { .. } => part
            matches P2pStreamingRpcResponsePart::PreviousIncompleteZkappUpdates { .. },
        StagedLedgerPartsReceiveProgress::ScanStateTreesReceiving { pending, .. } => pending
            && part matches P2pStreamingRpcResponsePart::ScanStateTree { .. },
        _ => false,
    }
}

/// `p1` is `p0` after recording the arrived part at time `t`.
pub open spec fn recv_update_rel(
    p0: StagedLedgerPartsReceiveProgress,
    part: P2pStreamingRpcResponsePart,
    t: Timestamp,
    p1: StagedLedgerPartsReceiveProgress,
) -> bool {
    match (p0, part) {
        (
            StagedLedgerPartsReceiveProgress::BasePending { .. },
            P2pStreamingRpcResponsePart::Base { payload },
        ) => p1 == (StagedLedgerPartsReceiveProgress::BaseReceived { time: t, base: payload }),
        (
            StagedLedgerPartsReceiveProgress::ScanStateBasePending { base, .. },
            P2pStreamingRpcResponsePart::ScanStateBase { payload },
        ) => p1 == (StagedLedgerPartsReceiveProgress::ScanStateBaseReceived {
            time: t,
            base,
            scan_state_base: payload,
        }),
        (
            StagedLedgerPartsReceiveProgress::PreviousIncompleteZkappUpdatesPending {
                base,
                scan_state_base,
                ..
            },
            P2pStreamingRpcResponsePart::PreviousIncompleteZkappUpdates { payload },
        ) => p1 == (StagedLedgerPartsReceiveProgress::PreviousIncompleteZkappUpdatesReceived {
            time: t,
            base,
            scan_state_base,
            previous_incomplete: payload,
        }),
        (
            StagedLedgerPartsReceiveProgress::ScanStateTreesReceiving {
                base,
                scan_state_base,
                previous_incomplete,
                trees,
                pending,
                ..
            },
            P2pStreamingRpcResponsePart::ScanStateTree { payload },
        ) => {
            &&& pending
            &&& p1 matches StagedLedgerPartsReceiveProgress::ScanStateTreesReceiving {
                time: t1,
                base: b1,
                scan_state_base: s1,
                previous_incomplete: i1,
                trees: tr1,
                pending: pd1,
            }
            &&& t1 == t
            &&& b1 == base
            &&& s1 == scan_state_base
            &&& i1 == previous_incomplete
            &&& tr1@ == trees@.push(payload)
            &&& !pd1
        },
        _ => false,
    }
}

// --- responder-side progress transitions --------------------------------

/// The part the responder would send next, if any.
pub open spec fn spec_remote_next_part(p: StagedLedgerPartsSendProgress) -> Option<
    P2pStreamingRpcResponsePart,
> {
    match p {
        StagedLedgerPartsSendProgress::LedgerGetSuccess { data, .. } => Some(
            P2pStreamingRpcResponsePart::Base { payload: data.base },
        ),
        StagedLedgerPartsSendProgress::BaseSent { data, .. } => Some(
            P2pStreamingRpcResponsePart::ScanStateBase { payload: data.scan_state_base },
        ),
        StagedLedgerPartsSendProgress::ScanStateBaseSent { data, .. } => Some(
            P2pStreamingRpcResponsePart::PreviousIncompleteZkappUpdates {
                payload: data.previous_incomplete,
            },
        ),
        StagedLedgerPartsSendProgress::PreviousIncompleteZkappUpdatesSent { data, .. } => if data
            .trees@.len() > 0 {
            Some(P2pStreamingRpcResponsePart::ScanStateTree { payload: data.trees@[0] })
        } else {
            None
        },
        StagedLedgerPartsSendProgress::ScanStateTreesSending { data, tree_index, .. } => if (
        tree_index as int) < data.trees@.len() {
            Some(P2pStreamingRpcResponsePart::ScanStateTree { payload: data.trees@[tree_index as int] })
        } else {
            None
        },
        _ => None,
    }
}

/// All parts have been sent and only the terminating empty response is owed.
pub open spec fn send_stream_done(p: StagedLedgerPartsSendProgress) -> bool {
    match p {
        StagedLedgerPartsSendProgress::PreviousIncompleteZkappUpdatesSent { data, .. } => data
            .trees@.len() == 0,
        StagedLedgerPartsSendProgress::ScanStateTreesSending { data, tree_index, .. } => (
        tree_index as int) >= data.trees@.len(),
        _ => false,
    }
}

/// A part can be sent from this position.
pub open spec fn can_send_advance(p: StagedLedgerPartsSendProgress) -> bool {
    spec_remote_next_part(p) is Some
}

/// `p1` is `p0` after sending the next part at time `t`; `tree_index`
/// counts the trees already sent, and the progress reaches `Success` only
/// through the terminating empty response.
pub open spec fn send_advance_rel(
    p0: StagedLedgerPartsSendProgress,
    t: Timestamp,
    p1: StagedLedgerPartsSendProgress,
) -> bool {
    match p0 {
        StagedLedgerPartsSendProgress::LedgerGetSuccess { data, .. } => p1 == (
        StagedLedgerPartsSendProgress::BaseSent { time: t, data }),
        StagedLedgerPartsSendProgress::BaseSent { data, .. } => p1 == (
        StagedLedgerPartsSendProgress::ScanStateBaseSent { time: t, data }),
        StagedLedgerPartsSendProgress::ScanStateBaseSent { data, .. } => p1 == (
        StagedLedgerPartsSendProgress::PreviousIncompleteZkappUpdatesSent { time: t, data }),
        StagedLedgerPartsSendProgress::PreviousIncompleteZkappUpdatesSent { data, .. } => {
            &&& data.trees@.len() > 0
            &&& p1 == (StagedLedgerPartsSendProgress::ScanStateTreesSending {
                time: t,
                data,
                tree_index: 1,
            })
        },
        StagedLedgerPartsSendProgress::ScanStateTreesSending { data, tree_index, .. } => {
            &&& (tree_index as int) < data.trees@.len()
            &&& p1 matches StagedLedgerPartsSendProgress::ScanStateTreesSending {
                time: t1,
                data: d1,
                tree_index: i1,
            }
            &&& t1 == t
            &&& d1 == data
            &&& i1 == tree_index + 1
        },
        _ => false,
    }
}

// --- the channel state --------------------------------------------------

/// The number of outstanding outbound requests: one while the requester side
/// sits in `Requested`, zero otherwise.
pub open spec fn local_requested_count(s: P2pChannelsStreamingRpcState) -> nat {
    if s matches P2pChannelsStreamingRpcState::Ready {
        local: P2pStreamingRpcLocalState::Requested { .. },
        ..
    } {
        1
    } else {
        0
    }
}

/// The number of outstanding inbound requests.
pub open spec fn remote_requested_count(s: P2pChannelsStreamingRpcState) -> nat {
    if s matches P2pChannelsStreamingRpcState::Ready {
        remote: P2pStreamingRpcRemoteState::Requested { .. },
        ..
    } {
        1
    } else {
        0
    }
}

/// At most one request is outstanding per direction: the requester and
/// responder sides each hold a single state value, so a second concurrent
/// `Requested` cannot be represented at all.
pub proof fn lemma_single_outstanding_request(s: P2pChannelsStreamingRpcState)
    ensures
        local_requested_count(s) <= 1,
        remote_requested_count(s) <= 1,
{
}

/// When an action is allowed to run against a channel state; the
/// dispatcher drops disallowed actions silently.  In particular a new
/// outbound request is allowed only while no request is outstanding, which
/// keeps at most one `Requested` per direction.
pub open spec fn spec_channel_is_enabled(
    s: P2pChannelsStreamingRpcState,
    a: P2pChannelsStreamingRpcAction,
) -> bool {
    match a {
        P2pChannelsStreamingRpcAction::Init { .. } => s is Disabled,
        P2pChannelsStreamingRpcAction::Pending { .. } => s matches
            P2pChannelsStreamingRpcState::Init { .. },
        P2pChannelsStreamingRpcAction::Ready { .. } => s matches
            P2pChannelsStreamingRpcState::Pending { .. },
        P2pChannelsStreamingRpcAction::RequestSend { .. } => s matches
            P2pChannelsStreamingRpcState::Ready {
            local: P2pStreamingRpcLocalState::WaitingForRequest { .. },
            ..
        },
        P2pChannelsStreamingRpcAction::Timeout { id, .. } => s matches
            P2pChannelsStreamingRpcState::Ready {
            local: P2pStreamingRpcLocalState::Requested { id: lid, .. },
            ..
        } && lid == id,
        P2pChannelsStreamingRpcAction::ResponseNextPartGet { id, .. } => s matches
            P2pChannelsStreamingRpcState::Ready {
            local: P2pStreamingRpcLocalState::Requested { id: lid, progress, .. },
            ..
        } && lid == id && recv_can_set_next_pending(progress),
        P2pChannelsStreamingRpcAction::ResponsePartReceived { id, response, .. } => s matches
            P2pChannelsStreamingRpcState::Ready {
            local: P2pStreamingRpcLocalState::Requested { id: lid, progress, .. },
            ..
        } && lid == id && recv_can_update(progress, response),
        P2pChannelsStreamingRpcAction::ResponseReceived { id, .. } => s matches
            P2pChannelsStreamingRpcState::Ready {
            local: P2pStreamingRpcLocalState::Requested { id: lid, .. },
            ..
        } && lid == id,
        P2pChannelsStreamingRpcAction::RequestReceived { .. } => s matches
            P2pChannelsStreamingRpcState::Ready {
            remote: P2pStreamingRpcRemoteState::WaitingForRequest { .. },
            ..
        },
        P2pChannelsStreamingRpcAction::ResponsePending { .. } => s matches
            P2pChannelsStreamingRpcState::Ready {
            remote: P2pStreamingRpcRemoteState::Requested {
                progress: StagedLedgerPartsSendProgress::LedgerGetIdle { .. },
                ..
            },
            ..
        },
        P2pChannelsStreamingRpcAction::ResponseSendInit { id, .. } => s matches
            P2pChannelsStreamingRpcState::Ready {
            remote: P2pStreamingRpcRemoteState::Requested {
                id: rid,
                progress: StagedLedgerPartsSendProgress::LedgerGetPending { .. },
                ..
            },
            ..
        } && rid == id,
        P2pChannelsStreamingRpcAction::ResponsePartNextSend { id, .. } => s matches
            P2pChannelsStreamingRpcState::Ready {
            remote: P2pStreamingRpcRemoteState::Requested { id: rid, progress, .. },
            ..
        } && rid == id && (spec_remote_next_part(progress) is Some || send_stream_done(progress)),
        P2pChannelsStreamingRpcAction::ResponsePartSend { id, .. } => s matches
            P2pChannelsStreamingRpcState::Ready {
            remote: P2pStreamingRpcRemoteState::Requested { id: rid, progress, .. },
            ..
        } && rid == id && can_send_advance(progress),
        P2pChannelsStreamingRpcAction::ResponseSent { id, .. } => s matches
            P2pChannelsStreamingRpcState::Ready {
            remote: P2pStreamingRpcRemoteState::Requested {
                id: rid,
                progress: StagedLedgerPartsSendProgress::Success { .. },
                ..
            },
            ..
        } && rid == id,
    }
}

/// The transition relation of the channel reducer: how one action turns the
/// old state and request counter into the new ones and which effects come
/// out, for every action and every starting state.
pub open spec fn reducer_rel(
    pre: P2pChannelsStreamingRpcState,
    post: P2pChannelsStreamingRpcState,
    pre_next_id: u64,
    post_next_id: u64,
    action: P2pChannelsStreamingRpcAction,
    time: Timestamp,
    efs: Seq<StreamingRpcEffect>,
) -> bool {
    match action {
        P2pChannelsStreamingRpcAction::Init { peer_id } => {
            &&& post == (P2pChannelsStreamingRpcState::Init { time })
            &&& post_next_id == pre_next_id
            &&& efs =~= seq![StreamingRpcEffect::InitChannel { peer_id }]
        },
        P2pChannelsStreamingRpcAction::Pending { .. } => {
            &&& post == (P2pChannelsStreamingRpcState::Pending { time })
            &&& post_next_id == pre_next_id
            &&& efs =~= Seq::<StreamingRpcEffect>::empty()
        },
        P2pChannelsStreamingRpcAction::Ready { peer_id } => {
            &&& post == (P2pChannelsStreamingRpcState::Ready {
                time,
                local: P2pStreamingRpcLocalState::WaitingForRequest { time },
                remote: P2pStreamingRpcRemoteState::WaitingForRequest { time },
                remote_last_responded: 0,
            })
            &&& post_next_id == pre_next_id
            &&& efs =~= seq![StreamingRpcEffect::ReadyCallback { peer_id }]
        },
        P2pChannelsStreamingRpcAction::RequestSend { peer_id, id, request } => match pre {
            P2pChannelsStreamingRpcState::Ready {
                time: t0,
                local: P2pStreamingRpcLocalState::WaitingForRequest { .. },
                remote,
                remote_last_responded,
            } => {
                &&& post == (P2pChannelsStreamingRpcState::Ready {
                    time: t0,
                    local: P2pStreamingRpcLocalState::Requested {
                        time,
                        id,
                        request,
                        progress: StagedLedgerPartsReceiveProgress::BasePending { time },
                    },
                    remote,
                    remote_last_responded,
                })
                &&& post_next_id == pre_next_id + 1
                &&& efs =~= seq![
                    StreamingRpcEffect::MessageSend {
                        peer_id,
                        msg: StreamingRpcChannelMsg::Request(id, request),
                    },
                ]
            },
            _ => {
                &&& post == pre
                &&& post_next_id == pre_next_id
                &&& efs =~= seq![StreamingRpcEffect::BugCondition]
            },
        },
        P2pChannelsStreamingRpcAction::Timeout { peer_id, id } => {
            &&& post == pre
            &&& post_next_id == pre_next_id
            &&& efs =~= seq![StreamingRpcEffect::TimeoutCallback { peer_id, id }]
        },
        P2pChannelsStreamingRpcAction::ResponseNextPartGet { peer_id, id } => match pre {
            P2pChannelsStreamingRpcState::Ready {
                time: t0,
                local: P2pStreamingRpcLocalState::Requested {
                    time: t1,
                    id: lid,
                    request,
                    progress,
                },
                remote,
                remote_last_responded,
            } => {
                &&& post_next_id == pre_next_id
                &&& if recv_can_set_next_pending(progress) {
                    &&& post matches P2pChannelsStreamingRpcState::Ready {
                        time: pt0,
                        local: P2pStreamingRpcLocalState::Requested {
                            time: pt1,
                            id: pid,
                            request: preq,
                            progress: p1,
                        },
                        remote: prem,
                        remote_last_responded: prlr,
                    }
                    &&& pt0 == t0
                    &&& pt1 == t1
                    &&& pid == lid
                    &&& preq == request
                    &&& prem == remote
                    &&& prlr == remote_last_responded
                    &&& recv_set_next_pending_rel(progress, time, p1)
                    &&& efs =~= seq![
                        StreamingRpcEffect::MessageSend {
                            peer_id,
                            msg: StreamingRpcChannelMsg::Next(id),
                        },
                    ]
                } else {
                    &&& post == pre
                    &&& efs =~= seq![StreamingRpcEffect::BugCondition]
                }
            },
            _ => {
                &&& post == pre
                &&& post_next_id == pre_next_id
                &&& efs =~= seq![StreamingRpcEffect::BugCondition]
            },
        },
        P2pChannelsStreamingRpcAction::ResponsePartReceived { peer_id, id, response } => match pre {
            P2pChannelsStreamingRpcState::Ready {
                time: t0,
                local: P2pStreamingRpcLocalState::Requested {
                    time: t1,
                    id: lid,
                    request,
                    progress,
                },
                remote,
                remote_last_responded,
            } => {
                &&& post_next_id == pre_next_id
                &&& if recv_can_update(progress, response) {
                    &&& post matches P2pChannelsStreamingRpcState::Ready {
                        time: pt0,
                        local: P2pStreamingRpcLocalState::Requested {
                            time: pt1,
                            id: pid,
                            request: preq,
                            progress: p1,
                        },
                        remote: prem,
                        remote_last_responded: prlr,
                    }
                    &&& pt0 == t0
                    &&& pt1 == t1
                    &&& pid == lid
                    &&& preq == request
                    &&& prem == remote
                    &&& prlr == remote_last_responded
                    &&& recv_update_rel(progress, response, time, p1)
                    &&& efs =~= seq![
                        StreamingRpcEffect::Dispatch(
                            P2pChannelsStreamingRpcAction::ResponseNextPartGet { peer_id, id },
                        ),
                    ]
                } else {
                    &&& post == pre
                    &&& efs =~= seq![StreamingRpcEffect::BugCondition]
                }
            },
            _ => {
                &&& post == pre
                &&& post_next_id == pre_next_id
                &&& efs =~= seq![StreamingRpcEffect::BugCondition]
            },
        },
        P2pChannelsStreamingRpcAction::ResponseReceived { peer_id, id, response } => match pre {
            P2pChannelsStreamingRpcState::Ready {
                time: t0,
                local: P2pStreamingRpcLocalState::Requested { id: lid, request, .. },
                remote,
                remote_last_responded,
            } => {
                &&& post == (P2pChannelsStreamingRpcState::Ready {
                    time: t0,
                    local: P2pStreamingRpcLocalState::Responded { time, id: lid, request },
                    remote,
                    remote_last_responded,
                })
                &&& post_next_id == pre_next_id
                &&& efs =~= seq![
                    StreamingRpcEffect::ResponseReceivedCallback { peer_id, id, response },
                ]
            },
            _ => {
                &&& post == pre
                &&& post_next_id == pre_next_id
                &&& efs =~= seq![StreamingRpcEffect::BugCondition]
            },
        },
        P2pChannelsStreamingRpcAction::RequestReceived { peer_id, id, request } => match pre {
            P2pChannelsStreamingRpcState::Ready {
                time: t0,
                local,
                remote: _,
                remote_last_responded,
            } => {
                &&& post == (P2pChannelsStreamingRpcState::Ready {
                    time: t0,
                    local,
                    remote: P2pStreamingRpcRemoteState::Requested {
                        time,
                        id,
                        request,
                        progress: StagedLedgerPartsSendProgress::LedgerGetIdle { time },
                    },
                    remote_last_responded,
                })
                &&& post_next_id == pre_next_id
                &&& efs =~= Seq::<StreamingRpcEffect>::empty()
            },
            _ => {
                &&& post == pre
                &&& post_next_id == pre_next_id
                &&& efs =~= seq![StreamingRpcEffect::BugCondition]
            },
        },
        P2pChannelsStreamingRpcAction::ResponsePending { .. } => match pre {
            P2pChannelsStreamingRpcState::Ready {
                time: t0,
                local,
                remote: P2pStreamingRpcRemoteState::Requested {
                    time: t1,
                    id: rid,
                    request,
                    progress: _,
                },
                remote_last_responded,
            } => {
                &&& post == (P2pChannelsStreamingRpcState::Ready {
                    time: t0,
                    local,
                    remote: P2pStreamingRpcRemoteState::Requested {
                        time: t1,
                        id: rid,
                        request,
                        progress: StagedLedgerPartsSendProgress::LedgerGetPending { time },
                    },
                    remote_last_responded,
                })
                &&& post_next_id == pre_next_id
                &&& efs =~= Seq::<StreamingRpcEffect>::empty()
            },
            _ => {
                &&& post == pre
                &&& post_next_id == pre_next_id
                &&& efs =~= seq![StreamingRpcEffect::BugCondition]
            },
        },
        P2pChannelsStreamingRpcAction::ResponseSendInit { peer_id, id, response } => match pre {
            P2pChannelsStreamingRpcState::Ready {
                time: t0,
                local,
                remote: P2pStreamingRpcRemoteState::Requested {
                    time: t1,
                    id: rid,
                    request,
                    progress: _,
                },
                remote_last_responded,
            } => {
                &&& post_next_id == pre_next_id
                &&& match response {
                    Some(P2pStreamingRpcResponseFull::StagedLedgerParts(data)) => {
                        &&& post == (P2pChannelsStreamingRpcState::Ready {
                            time: t0,
                            local,
                            remote: P2pStreamingRpcRemoteState::Requested {
                                time: t1,
                                id: rid,
                                request,
                                progress: StagedLedgerPartsSendProgress::LedgerGetSuccess {
                                    time,
                                    data,
                                },
                            },
                            remote_last_responded,
                        })
                        &&& efs =~= seq![
                            StreamingRpcEffect::Dispatch(
                                P2pChannelsStreamingRpcAction::ResponsePartNextSend {
                                    peer_id,
                                    id,
                                },
                            ),
                        ]
                    },
                    None => {
                        &&& post == (P2pChannelsStreamingRpcState::Ready {
                            time: t0,
                            local,
                            remote: P2pStreamingRpcRemoteState::Requested {
                                time: t1,
                                id: rid,
                                request,
                                progress: StagedLedgerPartsSendProgress::Success { time },
                            },
                            remote_last_responded,
                        })
                        &&& efs =~= seq![
                            StreamingRpcEffect::MessageSend {
                                peer_id,
                                msg: StreamingRpcChannelMsg::Response(id, None),
                            },
                            StreamingRpcEffect::Dispatch(
                                P2pChannelsStreamingRpcAction::ResponseSent { peer_id, id },
                            ),
                        ]
                    },
                }
            },
            _ => {
                &&& post == pre
                &&& post_next_id == pre_next_id
                &&& efs =~= seq![StreamingRpcEffect::BugCondition]
            },
        },
        P2pChannelsStreamingRpcAction::ResponsePartNextSend { peer_id, id } => match pre {
            P2pChannelsStreamingRpcState::Ready {
                time: t0,
                local,
                remote: P2pStreamingRpcRemoteState::Requested {
                    time: t1,
                    id: rid,
                    request,
                    progress,
                },
                remote_last_responded,
            } => {
                &&& post_next_id == pre_next_id
                &&& match spec_remote_next_part(progress) {
                    Some(part) => {
                        &&& post == pre
                        &&& efs =~= seq![
                            StreamingRpcEffect::Dispatch(
                                P2pChannelsStreamingRpcAction::ResponsePartSend {
                                    peer_id,
                                    id,
                                    response: part,
                                },
                            ),
                        ]
                    },
                    None => if send_stream_done(progress) {
                        &&& post == (P2pChannelsStreamingRpcState::Ready {
                            time: t0,
                            local,
                            remote: P2pStreamingRpcRemoteState::Requested {
                                time: t1,
                                id: rid,
                                request,
                                progress: StagedLedgerPartsSendProgress::Success { time },
                            },
                            remote_last_responded,
                        })
                        &&& efs =~= seq![
                            StreamingRpcEffect::MessageSend {
                                peer_id,
                                msg: StreamingRpcChannelMsg::Response(id, None),
                            },
                            StreamingRpcEffect::Dispatch(
                                P2pChannelsStreamingRpcAction::ResponseSent { peer_id, id },
                            ),
                        ]
                    } else {
                        &&& post == pre
                        &&& efs =~= Seq::<StreamingRpcEffect>::empty()
                    },
                }
            },
            _ => {
                &&& post == pre
                &&& post_next_id == pre_next_id
                &&& efs =~= Seq::<StreamingRpcEffect>::empty()
            },
        },
        P2pChannelsStreamingRpcAction::ResponsePartSend { peer_id, id, response } => match pre {
            P2pChannelsStreamingRpcState::Ready {
                time: t0,
                local,
                remote: P2pStreamingRpcRemoteState::Requested {
                    time: t1,
                    id: rid,
                    request,
                    progress,
                },
                remote_last_responded,
            } => {
                &&& post_next_id == pre_next_id
                &&& if can_send_advance(progress) {
                    &&& post matches P2pChannelsStreamingRpcState::Ready {
                        time: pt0,
                        local: plocal,
                        remote: P2pStreamingRpcRemoteState::Requested {
                            time: pt1,
                            id: prid,
                            request: preq,
                            progress: p1,
                        },
                        remote_last_responded: prlr,
                    }
                    &&& pt0 == t0
                    &&& plocal == local
                    &&& pt1 == t1
                    &&& prid == rid
                    &&& preq == request
                    &&& prlr == remote_last_responded
                    &&& send_advance_rel(progress, time, p1)
                    &&& efs =~= seq![
                        StreamingRpcEffect::MessageSend {
                            peer_id,
                            msg: StreamingRpcChannelMsg::Response(id, Some(response)),
                        },
                        StreamingRpcEffect::Dispatch(
                            P2pChannelsStreamingRpcAction::ResponseSent { peer_id, id },
                        ),
                    ]
                } else {
                    &&& post == pre
                    &&& efs =~= seq![StreamingRpcEffect::BugCondition]
                }
            },
            _ => {
                &&& post == pre
                &&& post_next_id == pre_next_id
                &&& efs =~= seq![StreamingRpcEffect::BugCondition]
            },
        },
        P2pChannelsStreamingRpcAction::ResponseSent { id, .. } => match pre {
            P2pChannelsStreamingRpcState::Ready {
                time: t0,
                local,
                remote: P2pStreamingRpcRemoteState::Requested { request, .. },
                remote_last_responded,
            } => {
                &&& post == (P2pChannelsStreamingRpcState::Ready {
                    time: t0,
                    local,
                    remote: P2pStreamingRpcRemoteState::Responded { time, id, request },
                    remote_last_responded,
                })
                &&& post_next_id == pre_next_id
                &&& efs =~= Seq::<StreamingRpcEffect>::empty()
            },
            _ => {
                &&& post == pre
                &&& post_next_id == pre_next_id
                &&& efs =~= seq![StreamingRpcEffect::BugCondition]
            },
        },
    }
}

impl P2pChannelsStreamingRpcState {
    /// Applies one action: updates the channel state and the per-peer
    /// request-id counter and returns the effects, exactly as `reducer_rel`
    /// describes.  Actions arriving in the wrong state are dropped with a
    /// bug-condition effect and no mutation.
    pub fn reducer(
        &mut self,
        next_local_rpc_id: &mut u64,
        action: P2pChannelsStreamingRpcAction,
        time: Timestamp,
    ) -> (efs: Vec<StreamingRpcEffect>)
        requires
            *old(next_local_rpc_id) < u64::MAX,
        ensures
            reducer_rel(
                *old(self),
                *final(self),
                *old(next_local_rpc_id),
                *final(next_local_rpc_id),
                action,
                time,
                efs@,
            ),
    {
        let mut cur = P2pChannelsStreamingRpcState::Disabled;
        core::mem::swap(self, &mut cur);
        let mut efs: Vec<StreamingRpcEffect> = Vec::new();
        match action {
            P2pChannelsStreamingRpcAction::Init { peer_id } => {
                *self = P2pChannelsStreamingRpcState::Init { time };
                efs.push(StreamingRpcEffect::InitChannel { peer_id });
            },
            P2pChannelsStreamingRpcAction::Pending { .. } => {
                *self = P2pChannelsStreamingRpcState::Pending { time };
            },
            P2pChannelsStreamingRpcAction::Ready { peer_id } => {
                *self = P2pChannelsStreamingRpcState::Ready {
                    time,
                    local: P2pStreamingRpcLocalState::WaitingForRequest { time },
                    remote: P2pStreamingRpcRemoteState::WaitingForRequest { time },
                    remote_last_responded: 0,
                };
                efs.push(StreamingRpcEffect::ReadyCallback { peer_id });
            },
            P2pChannelsStreamingRpcAction::RequestSend { peer_id, id, request } => match cur {
                P2pChannelsStreamingRpcState::Ready {
                    time: t0,
                    local: P2pStreamingRpcLocalState::WaitingForRequest { .. },
                    remote,
                    remote_last_responded,
                } => {
                    *next_local_rpc_id = *next_local_rpc_id + 1;
                    *self = P2pChannelsStreamingRpcState::Ready {
                        time: t0,
                        local: P2pStreamingRpcLocalState::Requested {
                            time,
                            id,
                            request,
                            progress: StagedLedgerPartsReceiveProgress::BasePending { time },
                        },
                        remote,
                        remote_last_responded,
                    };
                    efs.push(
                        StreamingRpcEffect::MessageSend {
                            peer_id,
                            msg: StreamingRpcChannelMsg::Request(id, request),
                        },
                    );
                },
                other => {
                    *self = other;
                    efs.push(StreamingRpcEffect::BugCondition);
                },
            },
            P2pChannelsStreamingRpcAction::Timeout { peer_id, id } => {
                *self = cur;
                efs.push(StreamingRpcEffect::TimeoutCallback { peer_id, id });
            },
            P2pChannelsStreamingRpcAction::ResponseNextPartGet { peer_id, id } => match cur {
                P2pChannelsStreamingRpcState::Ready {
                    time: t0,
                    local: P2pStreamingRpcLocalState::Requested {
                        time: t1,
                        id: lid,
                        request,
                        progress,
                    },
                    remote,
                    remote_last_responded,
                } => {
                    let (p1, ok) = match progress {
                        StagedLedgerPartsReceiveProgress::BaseReceived { base, .. } => (
                            StagedLedgerPartsReceiveProgress::ScanStateBasePending {
                                time,
                                base,
                            },
                            true,
                        ),
                        StagedLedgerPartsReceiveProgress::ScanStateBaseReceived {
                            base,
                            scan_state_base,
                            ..
                        } => (
                            StagedLedgerPartsReceiveProgress::PreviousIncompleteZkappUpdatesPending {
                                time,
                                base,
                                scan_state_base,
                            },
                            true,
                        ),
                        StagedLedgerPartsReceiveProgress::PreviousIncompleteZkappUpdatesReceived {
                            base,
                            scan_state_base,
                            previous_incomplete,
                            ..
                        } => (
                            StagedLedgerPartsReceiveProgress::ScanStateTreesReceiving {
                                time,
                                base,
                                scan_state_base,
                                previous_incomplete,
                                trees: Vec::new(),
                                pending: true,
                            },
                            true,
                        ),
                        StagedLedgerPartsReceiveProgress::ScanStateTreesReceiving {
                            time: pt,
                            base,
                            scan_state_base,
                            previous_incomplete,
                            trees,
                            pending,
                        } => if pending {
                            (
                                StagedLedgerPartsReceiveProgress::ScanStateTreesReceiving {
                                    time: pt,
                                    base,
                                    scan_state_base,
                                    previous_incomplete,
                                    trees,
                                    pending,
                                },
                                false,
                            )
                        } else {
                            (
                                StagedLedgerPartsReceiveProgress::ScanStateTreesReceiving {
                                    time,
                                    base,
                                    scan_state_base,
                                    previous_incomplete,
                                    trees,
                                    pending: true,
                                },
                                true,
                            )
                        },
                        other_progress => (other_progress, false),
                    };
                    *self = P2pChannelsStreamingRpcState::Ready {
                        time: t0,
                        local: P2pStreamingRpcLocalState::Requested {
                            time: t1,
                            id: lid,
                            request,
                            progress: p1,
                        },
                        remote,
                        remote_last_responded,
                    };
                    if ok {
                        efs.push(
                            StreamingRpcEffect::MessageSend {
                                peer_id,
                                msg: StreamingRpcChannelMsg::Next(id),
                            },
                        );
                    } else {
                        efs.push(StreamingRpcEffect::BugCondition);
                    }
                },
                other => {
                    *self = other;
                    efs.push(StreamingRpcEffect::BugCondition);
                },
            },
            P2pChannelsStreamingRpcAction::ResponsePartReceived { peer_id, id, response } => match cur {
                P2pChannelsStreamingRpcState::Ready {
                    time: t0,
                    local: P2pStreamingRpcLocalState::Requested {
                        time: t1,
                        id: lid,
                        request,
                        progress,
                    },
                    remote,
                    remote_last_responded,
                } => {
                    let (p1, ok) = match (progress, response) {
                        (
                            StagedLedgerPartsReceiveProgress::BasePending { .. },
                            P2pStreamingRpcResponsePart::Base { payload },
                        ) => (
                            StagedLedgerPartsReceiveProgress::BaseReceived {
                                time,
                                base: payload,
                            },
                            true,
                        ),
                        (
                            StagedLedgerPartsReceiveProgress::ScanStateBasePending { base, .. },
                            P2pStreamingRpcResponsePart::ScanStateBase { payload },
                        ) => (
                            StagedLedgerPartsReceiveProgress::ScanStateBaseReceived {
                                time,
                                base,
                                scan_state_base: payload,
                            },
                            true,
                        ),
                        (
                            StagedLedgerPartsReceiveProgress::PreviousIncompleteZkappUpdatesPending {
                                base,
                                scan_state_base,
                                ..
                            },
                            P2pStreamingRpcResponsePart::PreviousIncompleteZkappUpdates { payload },
                        ) => (
                            StagedLedgerPartsReceiveProgress::PreviousIncompleteZkappUpdatesReceived {
                                time,
                                base,
                                scan_state_base,
                                previous_incomplete: payload,
                            },
                            true,
                        ),
                        (
                            StagedLedgerPartsReceiveProgress::ScanStateTreesReceiving {
                                time: pt,
                                base,
                                scan_state_base,
                                previous_incomplete,
                                mut trees,
                                pending,
                            },
                            P2pStreamingRpcResponsePart::ScanStateTree { payload },
                        ) => if pending {
                            trees.push(payload);
                            (
                                StagedLedgerPartsReceiveProgress::ScanStateTreesReceiving {
                                    time,
                                    base,
                                    scan_state_base,
                                    previous_incomplete,
                                    trees,
                                    pending: false,
                                },
                                true,
                            )
                        } else {
                            (
                                StagedLedgerPartsReceiveProgress::ScanStateTreesReceiving {
                                    time: pt,
                                    base,
                                    scan_state_base,
                                    previous_incomplete,
                                    trees,
                                    pending,
                                },
                                false,
                            )
                        },
                        (other_progress, _) => (other_progress, false),
                    };
                    *self = P2pChannelsStreamingRpcState::Ready {
                        time: t0,
                        local: P2pStreamingRpcLocalState::Requested {
                            time: t1,
                            id: lid,
                            request,
                            progress: p1,
                        },
                        remote,
                        remote_last_responded,
                    };
                    if ok {
                        efs.push(
                            StreamingRpcEffect::Dispatch(
                                P2pChannelsStreamingRpcAction::ResponseNextPartGet {
                                    peer_id,
                                    id,
                                },
                            ),
                        );
                    } else {
                        efs.push(StreamingRpcEffect::BugCondition);
                    }
                },
                other => {
                    *self = other;
                    efs.push(StreamingRpcEffect::BugCondition);
                },
            },
            P2pChannelsStreamingRpcAction::ResponseReceived { peer_id, id, response } => match cur {
                P2pChannelsStreamingRpcState::Ready {
                    time: t0,
                    local: P2pStreamingRpcLocalState::Requested { id: lid, request, .. },
                    remote,
                    remote_last_responded,
                } => {
                    *self = P2pChannelsStreamingRpcState::Ready {
                        time: t0,
                        local: P2pStreamingRpcLocalState::Responded { time, id: lid, request },
                        remote,
                        remote_last_responded,
                    };
                    efs.push(
                        StreamingRpcEffect::ResponseReceivedCallback { peer_id, id, response },
                    );
                },
                other => {
                    *self = other;
                    efs.push(StreamingRpcEffect::BugCondition);
                },
            },
            P2pChannelsStreamingRpcAction::RequestReceived { peer_id: _, id, request } => match cur {
                P2pChannelsStreamingRpcState::Ready {
                    time: t0,
                    local,
                    remote: _,
                    remote_last_responded,
                } => {
                    *self = P2pChannelsStreamingRpcState::Ready {
                        time: t0,
                        local,
                        remote: P2pStreamingRpcRemoteState::Requested {
                            time,
                            id,
                            request,
                            progress: StagedLedgerPartsSendProgress::LedgerGetIdle { time },
                        },
                        remote_last_responded,
                    };
                },
                other => {
                    *self = other;
                    efs.push(StreamingRpcEffect::BugCondition);
                },
            },
            P2pChannelsStreamingRpcAction::ResponsePending { .. } => match cur {
                P2pChannelsStreamingRpcState::Ready {
                    time: t0,
                    local,
                    remote: P2pStreamingRpcRemoteState::Requested {
                        time: t1,
                        id: rid,
                        request,
                        progress: _,
                    },
                    remote_last_responded,
                } => {
                    *self = P2pChannelsStreamingRpcState::Ready {
                        time: t0,
                        local,
                        remote: P2pStreamingRpcRemoteState::Requested {
                            time: t1,
                            id: rid,
                            request,
                            progress: StagedLedgerPartsSendProgress::LedgerGetPending { time },
                        },
                        remote_last_responded,
                    };
                },
                other => {
                    *self = other;
                    efs.push(StreamingRpcEffect::BugCondition);
                },
            },
            P2pChannelsStreamingRpcAction::ResponseSendInit { peer_id, id, response } => match cur {
                P2pChannelsStreamingRpcState::Ready {
                    time: t0,
                    local,
                    remote: P2pStreamingRpcRemoteState::Requested {
                        time: t1,
                        id: rid,
                        request,
                        progress: _,
                    },
                    remote_last_responded,
                } => match response {
                    Some(P2pStreamingRpcResponseFull::StagedLedgerParts(data)) => {
                        *self = P2pChannelsStreamingRpcState::Ready {
                            time: t0,
                            local,
                            remote: P2pStreamingRpcRemoteState::Requested {
                                time: t1,
                                id: rid,
                                request,
                                progress: StagedLedgerPartsSendProgress::LedgerGetSuccess {
                                    time,
                                    data,
                                },
                            },
                            remote_last_responded,
                        };
                        efs.push(
                            StreamingRpcEffect::Dispatch(
                                P2pChannelsStreamingRpcAction::ResponsePartNextSend {
                                    peer_id,
                                    id,
                                },
                            ),
                        );
                    },
                    None => {
                        *self = P2pChannelsStreamingRpcState::Ready {
                            time: t0,
                            local,
                            remote: P2pStreamingRpcRemoteState::Requested {
                                time: t1,
                                id: rid,
                                request,
                                progress: StagedLedgerPartsSendProgress::Success { time },
                            },
                            remote_last_responded,
                        };
                        efs.push(
                            StreamingRpcEffect::MessageSend {
                                peer_id,
                                msg: StreamingRpcChannelMsg::Response(id, None),
                            },
                        );
                        efs.push(
                            StreamingRpcEffect::Dispatch(
                                P2pChannelsStreamingRpcAction::ResponseSent { peer_id, id },
                            ),
                        );
                    },
                },
                other => {
                    *self = other;
                    efs.push(StreamingRpcEffect::BugCondition);
                },
            },
            P2pChannelsStreamingRpcAction::ResponsePartNextSend { peer_id, id } => match cur {
                P2pChannelsStreamingRpcState::Ready {
                    time: t0,
                    local,
                    remote: P2pStreamingRpcRemoteState::Requested {
                        time: t1,
                        id: rid,
                        request,
                        progress,
                    },
                    remote_last_responded,
                } => {
                    let next: Option<P2pStreamingRpcResponsePart> = match &progress {
                        StagedLedgerPartsSendProgress::LedgerGetSuccess { data, .. } => Some(
                            P2pStreamingRpcResponsePart::Base { payload: data.base },
                        ),
                        StagedLedgerPartsSendProgress::BaseSent { data, .. } => Some(
                            P2pStreamingRpcResponsePart::ScanStateBase {
                                payload: data.scan_state_base,
                            },
                        ),
                        StagedLedgerPartsSendProgress::ScanStateBaseSent { data, .. } => Some(
                            P2pStreamingRpcResponsePart::PreviousIncompleteZkappUpdates {
                                payload: data.previous_incomplete,
                            },
                        ),
                        StagedLedgerPartsSendProgress::PreviousIncompleteZkappUpdatesSent {
                            data,
                            ..
                        } => if data.trees.len() > 0 {
                            Some(
                                P2pStreamingRpcResponsePart::ScanStateTree {
                                    payload: data.trees[0],
                                },
                            )
                        } else {
                            None
                        },
                        StagedLedgerPartsSendProgress::ScanStateTreesSending {
                            data,
                            tree_index,
                            ..
                        } => if *tree_index < data.trees.len() {
                            Some(
                                P2pStreamingRpcResponsePart::ScanStateTree {
                                    payload: data.trees[*tree_index],
                                },
                            )
                        } else {
                            None
                        },
                        _ => None,
                    };
                    match next {
                        Some(part) => {
                            *self = P2pChannelsStreamingRpcState::Ready {
                                time: t0,
                                local,
                                remote: P2pStreamingRpcRemoteState::Requested {
                                    time: t1,
                                    id: rid,
                                    request,
                                    progress,
                                },
                                remote_last_responded,
                            };
                            efs.push(
                                StreamingRpcEffect::Dispatch(
                                    P2pChannelsStreamingRpcAction::ResponsePartSend {
                                        peer_id,
                                        id,
                                        response: part,
                                    },
                                ),
                            );
                        },
                        None => {
                            let done: bool = match &progress {
                                StagedLedgerPartsSendProgress::PreviousIncompleteZkappUpdatesSent {
                                    data,
                                    ..
                                } => data.trees.len() == 0,
                                StagedLedgerPartsSendProgress::ScanStateTreesSending {
                                    data,
                                    tree_index,
                                    ..
                                } => *tree_index >= data.trees.len(),
                                _ => false,
                            };
                            if done {
                                *self = P2pChannelsStreamingRpcState::Ready {
                                    time: t0,
                                    local,
                                    remote: P2pStreamingRpcRemoteState::Requested {
                                        time: t1,
                                        id: rid,
                                        request,
                                        progress: StagedLedgerPartsSendProgress::Success { time },
                                    },
                                    remote_last_responded,
                                };
                                efs.push(
                                    StreamingRpcEffect::MessageSend {
                                        peer_id,
                                        msg: StreamingRpcChannelMsg::Response(id, None),
                                    },
                                );
                                efs.push(
                                    StreamingRpcEffect::Dispatch(
                                        P2pChannelsStreamingRpcAction::ResponseSent {
                                            peer_id,
                                            id,
                                        },
                                    ),
                                );
                            } else {
                                *self = P2pChannelsStreamingRpcState::Ready {
                                    time: t0,
                                    local,
                                    remote: P2pStreamingRpcRemoteState::Requested {
                                        time: t1,
                                        id: rid,
                                        request,
                                        progress,
                                    },
                                    remote_last_responded,
                                };
                            }
                        },
                    }
                },
                other => {
                    *self = other;
                },
            },
            P2pChannelsStreamingRpcAction::ResponsePartSend { peer_id, id, response } => match cur {
                P2pChannelsStreamingRpcState::Ready {
                    time: t0,
                    local,
                    remote: P2pStreamingRpcRemoteState::Requested {
                        time: t1,
                        id: rid,
                        request,
                        progress,
                    },
                    remote_last_responded,
                } => {
                    let (p1, ok) = match progress {
                        StagedLedgerPartsSendProgress::LedgerGetSuccess { data, .. } => (
                            StagedLedgerPartsSendProgress::BaseSent { time, data },
                            true,
                        ),
                        StagedLedgerPartsSendProgress::BaseSent { data, .. } => (
                            StagedLedgerPartsSendProgress::ScanStateBaseSent { time, data },
                            true,
                        ),
                        StagedLedgerPartsSendProgress::ScanStateBaseSent { data, .. } => (
                            StagedLedgerPartsSendProgress::PreviousIncompleteZkappUpdatesSent {
                                time,
                                data,
                            },
                            true,
                        ),
                        StagedLedgerPartsSendProgress::PreviousIncompleteZkappUpdatesSent {
                            time: pt,
                            data,
                        } => if data.trees.len() == 0 {
                            (
                                StagedLedgerPartsSendProgress::PreviousIncompleteZkappUpdatesSent {
                                    time: pt,
                                    data,
                                },
                                false,
                            )
                        } else {
                            (
                                StagedLedgerPartsSendProgress::ScanStateTreesSending {
                                    time,
                                    data,
                                    tree_index: 1,
                                },
                                true,
                            )
                        },
                        StagedLedgerPartsSendProgress::ScanStateTreesSending {
                            time: pt,
                            data,
                            tree_index,
                        } => if tree_index >= data.trees.len() {
                            (
                                StagedLedgerPartsSendProgress::ScanStateTreesSending {
                                    time: pt,
                                    data,
                                    tree_index,
                                },
                                false,
                            )
                        } else {
                            (
                                StagedLedgerPartsSendProgress::ScanStateTreesSending {
                                    time,
                                    data,
                                    tree_index: tree_index + 1,
                                },
                                true,
                            )
                        },
                        other_progress => (other_progress, false),
                    };
                    *self = P2pChannelsStreamingRpcState::Ready {
                        time: t0,
                        local,
                        remote: P2pStreamingRpcRemoteState::Requested {
                            time: t1,
                            id: rid,
                            request,
                            progress: p1,
                        },
                        remote_last_responded,
                    };
                    if ok {
                        efs.push(
                            StreamingRpcEffect::MessageSend {
                                peer_id,
                                msg: StreamingRpcChannelMsg::Response(id, Some(response)),
                            },
                        );
                        efs.push(
                            StreamingRpcEffect::Dispatch(
                                P2pChannelsStreamingRpcAction::ResponseSent { peer_id, id },
                            ),
                        );
                    } else {
                        efs.push(StreamingRpcEffect::BugCondition);
                    }
                },
                other => {
                    *self = other;
                    efs.push(StreamingRpcEffect::BugCondition);
                },
            },
            P2pChannelsStreamingRpcAction::ResponseSent { peer_id: _, id } => match cur {
                P2pChannelsStreamingRpcState::Ready {
                    time: t0,
                    local,
                    remote: P2pStreamingRpcRemoteState::Requested { request, .. },
                    remote_last_responded,
                } => {
                    *self = P2pChannelsStreamingRpcState::Ready {
                        time: t0,
                        local,
                        remote: P2pStreamingRpcRemoteState::Responded { time, id, request },
                        remote_last_responded,
                    };
                },
                other => {
                    *self = other;
                    efs.push(StreamingRpcEffect::BugCondition);
                },
            },
        }
        efs
    }

    /// Decides whether an action may run against this channel state; the
    /// dispatcher drops it otherwise.
    pub fn is_enabled(&self, action: &P2pChannelsStreamingRpcAction) -> (r: bool)
        ensures
            r == spec_channel_is_enabled(*self, *action),
    {
        match action {
            P2pChannelsStreamingRpcAction::Init { .. } => matches!(
                self,
                P2pChannelsStreamingRpcState::Disabled
            ),
            P2pChannelsStreamingRpcAction::Pending { .. } => matches!(
                self,
                P2pChannelsStreamingRpcState::Init { .. }
            ),
            P2pChannelsStreamingRpcAction::Ready { .. } => matches!(
                self,
                P2pChannelsStreamingRpcState::Pending { .. }
            ),
            P2pChannelsStreamingRpcAction::RequestSend { .. } => matches!(
                self,
                P2pChannelsStreamingRpcState::Ready {
                    local: P2pStreamingRpcLocalState::WaitingForRequest { .. },
                    ..
                }
            ),
            P2pChannelsStreamingRpcAction::Timeout { id, .. } => match self {
                P2pChannelsStreamingRpcState::Ready {
                    local: P2pStreamingRpcLocalState::Requested { id: lid, .. },
                    ..
                } => *lid == *id,
                _ => false,
            },
            P2pChannelsStreamingRpcAction::ResponseNextPartGet { id, .. } => match self {
                P2pChannelsStreamingRpcState::Ready {
                    local: P2pStreamingRpcLocalState::Requested { id: lid, progress, .. },
                    ..
                } => *lid == *id && match progress {
                    StagedLedgerPartsReceiveProgress::BaseReceived { .. } => true,
                    StagedLedgerPartsReceiveProgress::ScanStateBaseReceived { .. } => true,
                    StagedLedgerPartsReceiveProgress::PreviousIncompleteZkappUpdatesReceived {
                        ..
                    } => true,
                    StagedLedgerPartsReceiveProgress::ScanStateTreesReceiving {
                        pending,
                        ..
                    } => !*pending,
                    _ => false,
                },
                _ => false,
            },
            P2pChannelsStreamingRpcAction::ResponsePartReceived { id, response, .. } => match self {
                P2pChannelsStreamingRpcState::Ready {
                    local: P2pStreamingRpcLocalState::Requested { id: lid, progress, .. },
                    ..
                } => *lid == *id && match (progress, response) {
                    (
                        StagedLedgerPartsReceiveProgress::BasePending { .. },
                        P2pStreamingRpcResponsePart::Base { .. },
                    ) => true,
                    (
                        StagedLedgerPartsReceiveProgress::ScanStateBasePending { .. },
                        P2pStreamingRpcResponsePart::ScanStateBase { .. },
                    ) => true,
                    (
                        StagedLedgerPartsReceiveProgress::PreviousIncompleteZkappUpdatesPending {
                            ..
                        },
                        P2pStreamingRpcResponsePart::PreviousIncompleteZkappUpdates { .. },
                    ) => true,
                    (
                        StagedLedgerPartsReceiveProgress::ScanStateTreesReceiving {
                            pending,
                            ..
                        },
                        P2pStreamingRpcResponsePart::ScanStateTree { .. },
                    ) => *pending,
                    _ => false,
                },
                _ => false,
            },
            P2pChannelsStreamingRpcAction::ResponseReceived { id, .. } => match self {
                P2pChannelsStreamingRpcState::Ready {
                    local: P2pStreamingRpcLocalState::Requested { id: lid, .. },
                    ..
                } => *lid == *id,
                _ => false,
            },
            P2pChannelsStreamingRpcAction::RequestReceived { .. } => matches!(
                self,
                P2pChannelsStreamingRpcState::Ready {
                    remote: P2pStreamingRpcRemoteState::WaitingForRequest { .. },
                    ..
                }
            ),
            P2pChannelsStreamingRpcAction::ResponsePending { .. } => matches!(
                self,
                P2pChannelsStreamingRpcState::Ready {
                    remote: P2pStreamingRpcRemoteState::Requested {
                        progress: StagedLedgerPartsSendProgress::LedgerGetIdle { .. },
                        ..
                    },
                    ..
                }
            ),
            P2pChannelsStreamingRpcAction::ResponseSendInit { id, .. } => match self {
                P2pChannelsStreamingRpcState::Ready {
                    remote: P2pStreamingRpcRemoteState::Requested {
                        id: rid,
                        progress: StagedLedgerPartsSendProgress::LedgerGetPending { .. },
                        ..
                    },
                    ..
                } => *rid == *id,
                _ => false,
            },
            P2pChannelsStreamingRpcAction::ResponsePartNextSend { id, .. } => match self {
                P2pChannelsStreamingRpcState::Ready {
                    remote: P2pStreamingRpcRemoteState::Requested { id: rid, progress, .. },
                    ..
                } => *rid == *id && match progress {
                    StagedLedgerPartsSendProgress::LedgerGetSuccess { .. } => true,
                    StagedLedgerPartsSendProgress::BaseSent { .. } => true,
                    StagedLedgerPartsSendProgress::ScanStateBaseSent { .. } => true,
                    StagedLedgerPartsSendProgress::PreviousIncompleteZkappUpdatesSent {
                        ..
                    } => true,
                    StagedLedgerPartsSendProgress::ScanStateTreesSending { .. } => true,
                    _ => false,
                },
                _ => false,
            },
            P2pChannelsStreamingRpcAction::ResponsePartSend { id, .. } => match self {
                P2pChannelsStreamingRpcState::Ready {
                    remote: P2pStreamingRpcRemoteState::Requested { id: rid, progress, .. },
                    ..
                } => *rid == *id && match progress {
                    StagedLedgerPartsSendProgress::LedgerGetSuccess { .. } => true,
                    StagedLedgerPartsSendProgress::BaseSent { .. } => true,
                    StagedLedgerPartsSendProgress::ScanStateBaseSent { .. } => true,
                    StagedLedgerPartsSendProgress::PreviousIncompleteZkappUpdatesSent {
                        data,
                        ..
                    } => data.trees.len() > 0,
                    StagedLedgerPartsSendProgress::ScanStateTreesSending {
                        data,
                        tree_index,
                        ..
                    } => *tree_index < data.trees.len(),
                    _ => false,
                },
                _ => false,
            },
            P2pChannelsStreamingRpcAction::ResponseSent { id, .. } => match self {
                P2pChannelsStreamingRpcState::Ready {
                    remote: P2pStreamingRpcRemoteState::Requested {
                        id: rid,
                        progress: StagedLedgerPartsSendProgress::Success { .. },
                        ..
                    },
                    ..
                } => *rid == *id,
                _ => false,
            },
        }
    }

    /// The response assembled so far, once every part has arrived: available
    /// exactly while the requester sits in the tree-receiving position.  The
    /// outer runtime calls this when the terminating empty response arrives.
    pub fn local_assembled_response(&self) -> (r: Option<P2pStreamingRpcResponseFull>)
        ensures
            r is Some <==> self matches P2pChannelsStreamingRpcState::Ready {
                local: P2pStreamingRpcLocalState::Requested {
                    progress: StagedLedgerPartsReceiveProgress::ScanStateTreesReceiving { .. },
                    ..
                },
                ..
            },
            self matches P2pChannelsStreamingRpcState::Ready {
                local: P2pStreamingRpcLocalState::Requested {
                    progress: StagedLedgerPartsReceiveProgress::ScanStateTreesReceiving {
                        base,
                        scan_state_base,
                        previous_incomplete,
                        trees,
                        ..
                    },
                    ..
                },
                ..
            } ==> r matches Some(P2pStreamingRpcResponseFull::StagedLedgerParts(d)) && d.base
                == base && d.scan_state_base == scan_state_base && d.previous_incomplete
                == previous_incomplete && d.trees@ == trees@,
    {
        match self {
            P2pChannelsStreamingRpcState::Ready {
                local: P2pStreamingRpcLocalState::Requested {
                    progress: StagedLedgerPartsReceiveProgress::ScanStateTreesReceiving {
                        base,
                        scan_state_base,
                        previous_incomplete,
                        trees,
                        ..
                    },
                    ..
                },
                ..
            } => {
                let copied = trees.clone();
                proof {
                    assert(copied@ =~= trees@);
                }
                Some(
                    P2pStreamingRpcResponseFull::StagedLedgerParts(
                        StagedLedgerPartsData {
                            base: *base,
                            scan_state_base: *scan_state_base,
                            previous_incomplete: *previous_incomplete,
                            trees: copied,
                        },
                    ),
                )
            },
            _ => None,
        }
    }
}

} // verus!
