use mina_node::p2p_effects::{
    p2p_effects, P2pAction, P2pChannelsSnarkJobCommitmentInitAction, P2pConnectionAction,
    P2pConnectionIncomingAction, P2pConnectionOutgoingAction, P2pDisconnectionAction, P2pEffect,
    P2pPeerReadyAction,
};
use mina_node::rpc::{P2pNetworkRpcAction, QueryHeader, RpcStreamId, SocketAddress};
use mina_node::snark_pool::{
    SnarkPoolCheckTimeoutsAction, SnarkPoolJobCommitmentAddAction, SnarkPoolP2pSendAction,
    SnarkJobCommitment,
};
use mina_node::wire::{i32_from_u32, read_be32, u32_from_i32};

#[test]
fn outgoing_success_answers_the_rpc_caller_then_delegates() {
    let action = P2pAction::Connection(P2pConnectionAction::Outgoing(
        P2pConnectionOutgoingAction::Success { peer_id: 4 },
    ));
    let efs = p2p_effects(action, Some(5));
    assert_eq!(
        efs,
        vec![P2pEffect::RpcOutgoingSuccess { rpc_id: 5 }, P2pEffect::Delegate(action)]
    );
    let efs = p2p_effects(action, None);
    assert_eq!(efs, vec![P2pEffect::Delegate(action)]);
}

#[test]
fn outgoing_error_only_answers_the_rpc_caller() {
    let action = P2pAction::Connection(P2pConnectionAction::Outgoing(
        P2pConnectionOutgoingAction::Error { peer_id: 4, error: 13 },
    ));
    assert_eq!(
        p2p_effects(action, Some(5)),
        vec![P2pEffect::RpcOutgoingError { rpc_id: 5, error: 13 }]
    );
    assert_eq!(p2p_effects(action, None), vec![]);
}

#[test]
fn incoming_answer_ready_sets_the_answer_then_delegates() {
    let action = P2pAction::Connection(P2pConnectionAction::Incoming(
        P2pConnectionIncomingAction::AnswerReady { peer_id: 4, answer: 21 },
    ));
    assert_eq!(
        p2p_effects(action, Some(6)),
        vec![P2pEffect::RpcIncomingAnswerSet { rpc_id: 6, answer: 21 }, P2pEffect::Delegate(action)]
    );
}

#[test]
fn pending_markers_and_peer_ready_emit_nothing() {
    let pending = P2pAction::Connection(P2pConnectionAction::Outgoing(
        P2pConnectionOutgoingAction::OfferSdpCreatePending { peer_id: 4 },
    ));
    assert_eq!(p2p_effects(pending, Some(5)), vec![]);
    let finish = P2pAction::Disconnection(P2pDisconnectionAction::Finish { peer_id: 4 });
    assert_eq!(p2p_effects(finish, None), vec![]);
    let ready = P2pAction::PeerReady(P2pPeerReadyAction { peer_id: 4 });
    assert_eq!(p2p_effects(ready, None), vec![]);
}

#[test]
fn disconnection_init_delegates() {
    let action = P2pAction::Disconnection(P2pDisconnectionAction::Init { peer_id: 4 });
    assert_eq!(p2p_effects(action, None), vec![P2pEffect::Delegate(action)]);
}

#[test]
fn peer_ready_opens_every_channel() {
    let action = P2pPeerReadyAction { peer_id: 8 };
    assert_eq!(
        action.effects(),
        vec![P2pChannelsSnarkJobCommitmentInitAction { peer_id: 8 }]
    );
}

#[test]
fn rpc_actions_name_their_stream_and_peer() {
    let addr = SocketAddress { ip: 0x7f000001, port: 8302 };
    let init = P2pNetworkRpcAction::Init { addr, peer_id: 3, stream_id: 5, incoming: false };
    assert_eq!(init.stream_id(), RpcStreamId::Exact(5));
    assert_eq!(*init.peer_id(), 3);
    assert!(init.is_enabled());
    let query = P2pNetworkRpcAction::OutgoingQuery {
        peer_id: 4,
        query: QueryHeader { tag: 1, version: 2, id: 3 },
        data: vec![1, 2],
    };
    assert_eq!(query.stream_id(), RpcStreamId::AnyOutgoing);
    assert_eq!(*query.peer_id(), 4);
}

#[test]
fn commitment_add_needs_a_fresh_job() {
    let action = SnarkPoolJobCommitmentAddAction {
        commitment: SnarkJobCommitment { job_id: 7, fee: 10, prover: 2 },
        sender: 2,
    };
    assert!(action.is_enabled(false));
    assert!(!action.is_enabled(true));
}

#[test]
fn p2p_send_needs_credit_and_unseen_work() {
    let action = SnarkPoolP2pSendAction { peer_id: 2 };
    assert!(action.is_enabled(3, 1, 5));
    assert!(!action.is_enabled(3, 0, 5));
    assert!(!action.is_enabled(6, 1, 5));
}

#[test]
fn timeout_checks_run_every_five_seconds() {
    let action = SnarkPoolCheckTimeoutsAction {};
    let sec = 1_000_000_000u64;
    assert!(action.is_enabled(10 * sec, 5 * sec));
    assert!(!action.is_enabled(10 * sec, 6 * sec));
    // a clock that moved backwards disables the check
    assert!(!action.is_enabled(4 * sec, 5 * sec));
}

#[test]
fn byte_order_helpers_round_trip() {
    assert_eq!(read_be32(0, 0, 0, 123), 123);
    assert_eq!(read_be32(1, 0, 0, 0), 0x0100_0000);
    assert_eq!(u32_from_i32(-1), 0xFFFF_FFFF);
    assert_eq!(u32_from_i32(123), 123);
    assert_eq!(i32_from_u32(0xFFFF_FFFF), -1);
    assert_eq!(i32_from_u32(u32_from_i32(-2_000_000_000)), -2_000_000_000);
}
