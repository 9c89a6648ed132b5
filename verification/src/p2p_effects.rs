//! The peer-to-peer effects dispatcher: routes each connection,
//! disconnection or peer-ready action to its own effect handler and, for
//! connection outcomes a local RPC caller waits on, answers that caller.

use vstd::prelude::*;

use crate::ids::{PeerId, RpcId};

verus! {

/// Outbound connection lifecycle actions.
#[derive(Clone, Copy, Debug, PartialEq, Eq, Structural)]
pub enum P2pConnectionOutgoingAction {
    RandomInit { peer_id: PeerId },
    Init { peer_id: PeerId },
    Reconnect { peer_id: PeerId },
    OfferSdpCreatePending { peer_id: PeerId },
    OfferSdpCreateSuccess { peer_id: PeerId, sdp: u64 },
    OfferReady { peer_id: PeerId, offer: u64 },
    OfferSendSuccess { peer_id: PeerId },
    AnswerRecvPending { peer_id: PeerId },
    AnswerRecvError { peer_id: PeerId, error: u64 },
    AnswerRecvSuccess { peer_id: PeerId, answer: u64 },
    FinalizePending { peer_id: PeerId },
    FinalizeError { peer_id: PeerId, error: u64 },
    FinalizeSuccess { peer_id: PeerId },
    Error { peer_id: PeerId, error: u64 },
    Success { peer_id: PeerId },
}

/// Inbound connection lifecycle actions.
#[derive(Clone, Copy, Debug, PartialEq, Eq, Structural)]
pub enum P2pConnectionIncomingAction {
    Init { peer_id: PeerId },
    AnswerSdpCreatePending { peer_id: PeerId },
    AnswerSdpCreateSuccess { peer_id: PeerId, sdp: u64 },
    AnswerReady { peer_id: PeerId, answer: u64 },
    AnswerSendSuccess { peer_id: PeerId },
    FinalizePending { peer_id: PeerId },
    FinalizeError { peer_id: PeerId, error: u64 },
    FinalizeSuccess { peer_id: PeerId },
    Error { peer_id: PeerId, error: u64 },
    Success { peer_id: PeerId },
}

/// Connection actions, by direction.
#[derive(Clone, Copy, Debug, PartialEq, Eq, Structural)]
pub enum P2pConnectionAction {
    Outgoing(P2pConnectionOutgoingAction),
    Incoming(P2pConnectionIncomingAction),
}

/// Disconnection actions.
#[derive(Clone, Copy, Debug, PartialEq, Eq, Structural)]
pub enum P2pDisconnectionAction {
    Init { peer_id: PeerId },
    Finish { peer_id: PeerId },
}

/// A peer's channels became ready.
#[derive(Clone, Copy, Debug, PartialEq, Eq, Structural)]
pub struct P2pPeerReadyAction {
    pub peer_id: PeerId,
}

/// The peer-to-peer actions the dispatcher routes.
#[derive(Clone, Copy, Debug, PartialEq, Eq, Structural)]
pub enum P2pAction {
    Connection(P2pConnectionAction),
    Disconnection(P2pDisconnectionAction),
    PeerReady(P2pPeerReadyAction),
}

/// What the dispatcher decides to do for one action.
#[derive(Clone, Copy, Debug, PartialEq, Eq, Structural)]
pub enum P2pEffect {
    /// Run the action's own effect handler.
    Delegate(P2pAction),
    /// Answer the local RPC caller that asked for this outbound connection.
    RpcOutgoingError { rpc_id: RpcId, error: u64 },
    RpcOutgoingSuccess { rpc_id: RpcId },
    /// Answer the local RPC caller watching this inbound connection.
    RpcIncomingAnswerSet { rpc_id: RpcId, answer: u64 },
    RpcIncomingError { rpc_id: RpcId, error: u64 },
    RpcIncomingSuccess { rpc_id: RpcId },
}

/// The effects the dispatcher emits for an action.  `peer_rpc_id` is the
/// local RPC call registered for the action's peer, if any; pending markers
/// and finished teardowns emit nothing.
pub open spec fn spec_p2p_effects(action: P2pAction, peer_rpc_id: Option<RpcId>) -> Seq<P2pEffect> {
    match action {
        P2pAction::Connection(P2pConnectionAction::Outgoing(a)) => match a {
            P2pConnectionOutgoingAction::OfferSdpCreatePending { .. } => Seq::empty(),
            P2pConnectionOutgoingAction::AnswerRecvPending { .. } => Seq::empty(),
            P2pConnectionOutgoingAction::FinalizePending { .. } => Seq::empty(),
            P2pConnectionOutgoingAction::Error { error, .. } => match peer_rpc_id {
                Some(rpc_id) => seq![P2pEffect::RpcOutgoingError { rpc_id, error }],
                None => Seq::empty(),
            },
            P2pConnectionOutgoingAction::Success { .. } => match peer_rpc_id {
                Some(rpc_id) => seq![
                    P2pEffect::RpcOutgoingSuccess { rpc_id },
                    P2pEffect::Delegate(action),
                ],
                None => seq![P2pEffect::Delegate(action)],
            },
            _ => seq![P2pEffect::Delegate(action)],
        },
        P2pAction::Connection(P2pConnectionAction::Incoming(a)) => match a {
            P2pConnectionIncomingAction::AnswerSdpCreatePending { .. } => Seq::empty(),
            P2pConnectionIncomingAction::FinalizePending { .. } => Seq::empty(),
            P2pConnectionIncomingAction::AnswerReady { answer, .. } => match peer_rpc_id {
                Some(rpc_id) => seq![
                    P2pEffect::RpcIncomingAnswerSet { rpc_id, answer },
                    P2pEffect::Delegate(action),
                ],
                None => seq![P2pEffect::Delegate(action)],
            },
            P2pConnectionIncomingAction::Error { error, .. } => match peer_rpc_id {
                Some(rpc_id) => seq![P2pEffect::RpcIncomingError { rpc_id, error }],
                None => Seq::empty(),
            },
            P2pConnectionIncomingAction::Success { .. } => match peer_rpc_id {
                Some(rpc_id) => seq![
                    P2pEffect::RpcIncomingSuccess { rpc_id },
                    P2pEffect::Delegate(action),
                ],
                None => seq![P2pEffect::Delegate(action)],
            },
            _ => seq![P2pEffect::Delegate(action)],
        },
        P2pAction::Disconnection(P2pDisconnectionAction::Init { .. }) => seq![
            P2pEffect::Delegate(action),
        ],
        P2pAction::Disconnection(P2pDisconnectionAction::Finish { .. }) => Seq::empty(),
        P2pAction::PeerReady(_) => Seq::empty(),
    }
}

/// Routes one peer-to-peer action: answers the waiting local RPC caller on
/// connection outcomes and delegates everything that has its own effect
/// handler, exactly as `spec_p2p_effects` describes.
pub fn p2p_effects(action: P2pAction, peer_rpc_id: Option<RpcId>) -> (efs: Vec<P2pEffect>)
    ensures
        efs@ == spec_p2p_effects(action, peer_rpc_id),
{
    let mut efs: Vec<P2pEffect> = Vec::new();
    match action {
        P2pAction::Connection(P2pConnectionAction::Outgoing(a)) => match a {
            P2pConnectionOutgoingAction::OfferSdpCreatePending { .. } => {},
            P2pConnectionOutgoingAction::AnswerRecvPending { .. } => {},
            P2pConnectionOutgoingAction::FinalizePending { .. } => {},
            P2pConnectionOutgoingAction::Error { error, .. } => match peer_rpc_id {
                Some(rpc_id) => {
                    efs.push(P2pEffect::RpcOutgoingError { rpc_id, error });
                },
                None => {},
            },
            P2pConnectionOutgoingAction::Success { .. } => {
                match peer_rpc_id {
                    Some(rpc_id) => {
                        efs.push(P2pEffect::RpcOutgoingSuccess { rpc_id });
                    },
                    None => {},
                }
                efs.push(P2pEffect::Delegate(action));
            },
            _ => {
                efs.push(P2pEffect::Delegate(action));
            },
        },
        P2pAction::Connection(P2pConnectionAction::Incoming(a)) => match a {
            P2pConnectionIncomingAction::AnswerSdpCreatePending { .. } => {},
            P2pConnectionIncomingAction::FinalizePending { .. } => {},
            P2pConnectionIncomingAction::AnswerReady { answer, .. } => {
                match peer_rpc_id {
                    Some(rpc_id) => {
                        efs.push(P2pEffect::RpcIncomingAnswerSet { rpc_id, answer });
                    },
                    None => {},
                }
                efs.push(P2pEffect::Delegate(action));
            },
            P2pConnectionIncomingAction::Error { error, .. } => match peer_rpc_id {
                Some(rpc_id) => {
                    efs.push(P2pEffect::RpcIncomingError { rpc_id, error });
                },
                None => {},
            },
            P2pConnectionIncomingAction::Success { .. } => {
                match peer_rpc_id {
                    Some(rpc_id) => {
                        efs.push(P2pEffect::RpcIncomingSuccess { rpc_id });
                    },
                    None => {},
                }
                efs.push(P2pEffect::Delegate(action));
            },
            _ => {
                efs.push(P2pEffect::Delegate(action));
            },
        },
        P2pAction::Disconnection(P2pDisconnectionAction::Init { .. }) => {
            efs.push(P2pEffect::Delegate(action));
        },
        P2pAction::Disconnection(P2pDisconnectionAction::Finish { .. }) => {},
        P2pAction::PeerReady(_) => {},
    }
    proof {
        assert(efs@ =~= spec_p2p_effects(action, peer_rpc_id));
    }
    efs
}

/// The channels every fresh peer gets.
#[derive(Clone, Copy, Debug, PartialEq, Eq, Structural)]
pub enum ChannelId {
    SnarkJobCommitmentPropagation,
}

/// Opens the snark-job-commitment channel for a peer.
#[derive(Clone, Copy, Debug, PartialEq, Eq, Structural)]
pub struct P2pChannelsSnarkJobCommitmentInitAction {
    pub peer_id: PeerId,
}

impl P2pPeerReadyAction {
    /// Once a peer is ready, every channel is initialised for it; today
    /// that is the snark-job-commitment channel alone.
    pub fn effects(self) -> (r: Vec<P2pChannelsSnarkJobCommitmentInitAction>)
        ensures
            r@ =~= seq![P2pChannelsSnarkJobCommitmentInitAction { peer_id: self.peer_id }],
    {
        let mut r: Vec<P2pChannelsSnarkJobCommitmentInitAction> = Vec::new();
        r.push(P2pChannelsSnarkJobCommitmentInitAction { peer_id: self.peer_id });
        r
    }
}

} // verus!
