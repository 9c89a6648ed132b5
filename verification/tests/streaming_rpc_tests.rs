use mina_node::streaming_rpc::{
    P2pChannelsStreamingRpcAction, P2pChannelsStreamingRpcState, P2pStreamingRpcLocalState,
    P2pStreamingRpcRemoteState, P2pStreamingRpcRequest, P2pStreamingRpcResponseFull,
    P2pStreamingRpcResponsePart, StagedLedgerPartsData, StreamingRpcChannelMsg, StreamingRpcEffect,
};
use mina_node::streaming_rpc_msg::{decode_msg, encode_msg};

const PEER: u64 = 9;

/// Applies one action through the enabling-condition filter, as the
/// dispatcher would: a disabled action is dropped.
fn dispatch(
    ch: &mut P2pChannelsStreamingRpcState,
    next_id: &mut u64,
    action: P2pChannelsStreamingRpcAction,
    time: u64,
) -> Vec<StreamingRpcEffect> {
    if ch.is_enabled(&action) {
        ch.reducer(next_id, action, time)
    } else {
        Vec::new()
    }
}

/// Feeds one received part to the requester and follows the dispatched
/// follow-up actions, returning every message the requester sent out.
fn receive_part(
    ch: &mut P2pChannelsStreamingRpcState,
    next_id: &mut u64,
    id: u64,
    part: P2pStreamingRpcResponsePart,
    time: u64,
) -> Vec<StreamingRpcChannelMsg> {
    let mut sent = Vec::new();
    let mut queue = vec![P2pChannelsStreamingRpcAction::ResponsePartReceived {
        peer_id: PEER,
        id,
        response: part,
    }];
    while let Some(action) = queue.pop() {
        for eff in dispatch(ch, next_id, action, time) {
            match eff {
                StreamingRpcEffect::MessageSend { msg, .. } => sent.push(msg),
                StreamingRpcEffect::Dispatch(a) => queue.push(a),
                other => panic!("unexpected effect {:?}", other),
            }
        }
    }
    sent
}

#[test]
fn full_requester_sequence_assembles_all_parts_in_order() {
    let mut ch = P2pChannelsStreamingRpcState::Disabled;
    let mut next_id: u64 = 41;

    dispatch(&mut ch, &mut next_id, P2pChannelsStreamingRpcAction::Init { peer_id: PEER }, 1);
    dispatch(&mut ch, &mut next_id, P2pChannelsStreamingRpcAction::Pending { peer_id: PEER }, 2);
    dispatch(&mut ch, &mut next_id, P2pChannelsStreamingRpcAction::Ready { peer_id: PEER }, 3);

    let efs = dispatch(
        &mut ch,
        &mut next_id,
        P2pChannelsStreamingRpcAction::RequestSend {
            peer_id: PEER,
            id: 42,
            request: P2pStreamingRpcRequest::StagedLedgerParts(777),
        },
        4,
    );
    assert_eq!(next_id, 42);
    assert_eq!(
        efs,
        vec![StreamingRpcEffect::MessageSend {
            peer_id: PEER,
            msg: StreamingRpcChannelMsg::Request(
                42,
                P2pStreamingRpcRequest::StagedLedgerParts(777)
            ),
        }]
    );

    // the four parts arrive in canonical order; after each one the
    // requester asks for the next
    for part in [
        P2pStreamingRpcResponsePart::Base { payload: 10 },
        P2pStreamingRpcResponsePart::ScanStateBase { payload: 20 },
        P2pStreamingRpcResponsePart::PreviousIncompleteZkappUpdates { payload: 30 },
        P2pStreamingRpcResponsePart::ScanStateTree { payload: 40 },
    ] {
        let sent = receive_part(&mut ch, &mut next_id, 42, part, 5);
        assert_eq!(sent, vec![StreamingRpcChannelMsg::Next(42)]);
    }

    // the terminating empty response arrives: the assembled response is
    // surfaced and the requester side rests at Responded
    let assembled = ch.local_assembled_response();
    match &assembled {
        Some(P2pStreamingRpcResponseFull::StagedLedgerParts(data)) => {
            assert_eq!(data.base, 10);
            assert_eq!(data.scan_state_base, 20);
            assert_eq!(data.previous_incomplete, 30);
            assert_eq!(data.trees, vec![40]);
        },
        other => panic!("expected an assembled response, got {:?}", other),
    }
    let efs = dispatch(
        &mut ch,
        &mut next_id,
        P2pChannelsStreamingRpcAction::ResponseReceived { peer_id: PEER, id: 42, response: assembled },
        6,
    );
    assert_eq!(efs.len(), 1);
    match &efs[0] {
        StreamingRpcEffect::ResponseReceivedCallback { id, response, .. } => {
            assert_eq!(*id, 42);
            match response {
                Some(P2pStreamingRpcResponseFull::StagedLedgerParts(data)) => {
                    assert_eq!((data.base, data.scan_state_base, data.previous_incomplete), (10, 20, 30));
                    assert_eq!(data.trees, vec![40]);
                },
                other => panic!("expected the assembled response, got {:?}", other),
            }
        },
        other => panic!("expected the response callback, got {:?}", other),
    }
    assert!(matches!(
        ch,
        P2pChannelsStreamingRpcState::Ready {
            local: P2pStreamingRpcLocalState::Responded { id: 42, .. },
            ..
        }
    ));
}

/// Drives the responder as the dispatcher would and collects what it sends.
fn responder_step(
    ch: &mut P2pChannelsStreamingRpcState,
    next_id: &mut u64,
    action: P2pChannelsStreamingRpcAction,
    time: u64,
) -> Vec<StreamingRpcChannelMsg> {
    let mut sent = Vec::new();
    let mut queue = vec![action];
    while let Some(action) = queue.pop() {
        for eff in dispatch(ch, next_id, action, time) {
            match eff {
                StreamingRpcEffect::MessageSend { msg, .. } => sent.push(msg),
                StreamingRpcEffect::Dispatch(a) => queue.push(a),
                other => panic!("unexpected effect {:?}", other),
            }
        }
    }
    sent
}

#[test]
fn full_responder_sequence_sends_parts_then_empty_response() {
    let mut ch = P2pChannelsStreamingRpcState::Disabled;
    let mut next_id: u64 = 0;
    dispatch(&mut ch, &mut next_id, P2pChannelsStreamingRpcAction::Init { peer_id: PEER }, 1);
    dispatch(&mut ch, &mut next_id, P2pChannelsStreamingRpcAction::Pending { peer_id: PEER }, 2);
    dispatch(&mut ch, &mut next_id, P2pChannelsStreamingRpcAction::Ready { peer_id: PEER }, 3);

    let sent = responder_step(
        &mut ch,
        &mut next_id,
        P2pChannelsStreamingRpcAction::RequestReceived {
            peer_id: PEER,
            id: 42,
            request: P2pStreamingRpcRequest::StagedLedgerParts(777),
        },
        4,
    );
    assert!(sent.is_empty());
    responder_step(&mut ch, &mut next_id, P2pChannelsStreamingRpcAction::ResponsePending { peer_id: PEER }, 5);

    // the ledger read finishes with one tree; the base part goes out at once
    let data = StagedLedgerPartsData {
        base: 10,
        scan_state_base: 20,
        previous_incomplete: 30,
        trees: vec![40],
    };
    let sent = responder_step(
        &mut ch,
        &mut next_id,
        P2pChannelsStreamingRpcAction::ResponseSendInit {
            peer_id: PEER,
            id: 42,
            response: Some(P2pStreamingRpcResponseFull::StagedLedgerParts(data)),
        },
        6,
    );
    assert_eq!(
        sent,
        vec![StreamingRpcChannelMsg::Response(
            42,
            Some(P2pStreamingRpcResponsePart::Base { payload: 10 })
        )]
    );

    // each `Next` from the requester draws the following part
    let mut expect = vec![
        StreamingRpcChannelMsg::Response(
            42,
            Some(P2pStreamingRpcResponsePart::ScanStateBase { payload: 20 }),
        ),
        StreamingRpcChannelMsg::Response(
            42,
            Some(P2pStreamingRpcResponsePart::PreviousIncompleteZkappUpdates { payload: 30 }),
        ),
        StreamingRpcChannelMsg::Response(
            42,
            Some(P2pStreamingRpcResponsePart::ScanStateTree { payload: 40 }),
        ),
        StreamingRpcChannelMsg::Response(42, None),
    ];
    expect.reverse();
    for _ in 0..4 {
        let sent = responder_step(
            &mut ch,
            &mut next_id,
            P2pChannelsStreamingRpcAction::ResponsePartNextSend { peer_id: PEER, id: 42 },
            7,
        );
        assert_eq!(sent, vec![expect.pop().unwrap()]);
    }
    assert!(matches!(
        ch,
        P2pChannelsStreamingRpcState::Ready {
            remote: P2pStreamingRpcRemoteState::Responded { id: 42, .. },
            ..
        }
    ));
}

#[test]
fn request_send_needs_waiting_local_state() {
    // a second request while one is outstanding is dropped by the
    // enabling condition: at most one `Requested` per direction
    let mut ch = P2pChannelsStreamingRpcState::Disabled;
    let mut next_id: u64 = 0;
    dispatch(&mut ch, &mut next_id, P2pChannelsStreamingRpcAction::Init { peer_id: PEER }, 1);
    dispatch(&mut ch, &mut next_id, P2pChannelsStreamingRpcAction::Pending { peer_id: PEER }, 2);
    dispatch(&mut ch, &mut next_id, P2pChannelsStreamingRpcAction::Ready { peer_id: PEER }, 3);
    let first = P2pChannelsStreamingRpcAction::RequestSend {
        peer_id: PEER,
        id: 1,
        request: P2pStreamingRpcRequest::StagedLedgerParts(5),
    };
    assert!(ch.is_enabled(&first));
    dispatch(&mut ch, &mut next_id, first, 4);
    let second = P2pChannelsStreamingRpcAction::RequestSend {
        peer_id: PEER,
        id: 2,
        request: P2pStreamingRpcRequest::StagedLedgerParts(6),
    };
    assert!(!ch.is_enabled(&second));
    assert_eq!(next_id, 1);
}

#[test]
fn request_send_while_outstanding_is_dropped_without_mutation() {
    // even straight at the reducer, past the enabling condition, a second
    // request-send is a bug condition: nothing changes and nothing is sent
    let mut ch = P2pChannelsStreamingRpcState::Disabled;
    let mut next_id: u64 = 0;
    dispatch(&mut ch, &mut next_id, P2pChannelsStreamingRpcAction::Init { peer_id: PEER }, 1);
    dispatch(&mut ch, &mut next_id, P2pChannelsStreamingRpcAction::Pending { peer_id: PEER }, 2);
    dispatch(&mut ch, &mut next_id, P2pChannelsStreamingRpcAction::Ready { peer_id: PEER }, 3);
    dispatch(
        &mut ch,
        &mut next_id,
        P2pChannelsStreamingRpcAction::RequestSend {
            peer_id: PEER,
            id: 1,
            request: P2pStreamingRpcRequest::StagedLedgerParts(5),
        },
        4,
    );
    assert_eq!(next_id, 1);
    let efs = ch.reducer(
        &mut next_id,
        P2pChannelsStreamingRpcAction::RequestSend {
            peer_id: PEER,
            id: 2,
            request: P2pStreamingRpcRequest::StagedLedgerParts(6),
        },
        5,
    );
    assert_eq!(efs, vec![StreamingRpcEffect::BugCondition]);
    assert_eq!(next_id, 1);
    assert!(matches!(
        ch,
        P2pChannelsStreamingRpcState::Ready {
            local: P2pStreamingRpcLocalState::Requested { id: 1, .. },
            ..
        }
    ));
}

#[test]
fn out_of_order_part_at_the_reducer_is_dropped_without_sending() {
    let mut ch = P2pChannelsStreamingRpcState::Disabled;
    let mut next_id: u64 = 0;
    dispatch(&mut ch, &mut next_id, P2pChannelsStreamingRpcAction::Init { peer_id: PEER }, 1);
    dispatch(&mut ch, &mut next_id, P2pChannelsStreamingRpcAction::Pending { peer_id: PEER }, 2);
    dispatch(&mut ch, &mut next_id, P2pChannelsStreamingRpcAction::Ready { peer_id: PEER }, 3);
    dispatch(
        &mut ch,
        &mut next_id,
        P2pChannelsStreamingRpcAction::RequestSend {
            peer_id: PEER,
            id: 1,
            request: P2pStreamingRpcRequest::StagedLedgerParts(5),
        },
        4,
    );
    // a tree part while the base is pending: the report is the only effect
    let efs = ch.reducer(
        &mut next_id,
        P2pChannelsStreamingRpcAction::ResponsePartReceived {
            peer_id: PEER,
            id: 1,
            response: P2pStreamingRpcResponsePart::ScanStateTree { payload: 1 },
        },
        5,
    );
    assert_eq!(efs, vec![StreamingRpcEffect::BugCondition]);
    // asking for the next part before the pending one arrived: likewise
    let efs = ch.reducer(
        &mut next_id,
        P2pChannelsStreamingRpcAction::ResponseNextPartGet { peer_id: PEER, id: 1 },
        6,
    );
    assert_eq!(efs, vec![StreamingRpcEffect::BugCondition]);
}

#[test]
fn out_of_order_part_is_disabled() {
    let mut ch = P2pChannelsStreamingRpcState::Disabled;
    let mut next_id: u64 = 0;
    dispatch(&mut ch, &mut next_id, P2pChannelsStreamingRpcAction::Init { peer_id: PEER }, 1);
    dispatch(&mut ch, &mut next_id, P2pChannelsStreamingRpcAction::Pending { peer_id: PEER }, 2);
    dispatch(&mut ch, &mut next_id, P2pChannelsStreamingRpcAction::Ready { peer_id: PEER }, 3);
    dispatch(
        &mut ch,
        &mut next_id,
        P2pChannelsStreamingRpcAction::RequestSend {
            peer_id: PEER,
            id: 1,
            request: P2pStreamingRpcRequest::StagedLedgerParts(5),
        },
        4,
    );
    // a tree part while the base is pending is out of order
    let wrong = P2pChannelsStreamingRpcAction::ResponsePartReceived {
        peer_id: PEER,
        id: 1,
        response: P2pStreamingRpcResponsePart::ScanStateTree { payload: 1 },
    };
    assert!(!ch.is_enabled(&wrong));
}

#[test]
fn channel_msgs_round_trip_through_bytes() {
    let msgs = [
        StreamingRpcChannelMsg::Request(42, P2pStreamingRpcRequest::StagedLedgerParts(777)),
        StreamingRpcChannelMsg::Next(42),
        StreamingRpcChannelMsg::Response(42, None),
        StreamingRpcChannelMsg::Response(
            7,
            Some(P2pStreamingRpcResponsePart::Base { payload: 10 }),
        ),
        StreamingRpcChannelMsg::Response(
            7,
            Some(P2pStreamingRpcResponsePart::ScanStateBase { payload: 11 }),
        ),
        StreamingRpcChannelMsg::Response(
            7,
            Some(P2pStreamingRpcResponsePart::PreviousIncompleteZkappUpdates { payload: 12 }),
        ),
        StreamingRpcChannelMsg::Response(
            7,
            Some(P2pStreamingRpcResponsePart::ScanStateTree { payload: 13 }),
        ),
    ];
    for msg in msgs {
        let bytes = encode_msg(&msg);
        assert_eq!(decode_msg(&bytes), Some(msg));
    }
}

#[test]
fn truncated_or_tagless_msg_bytes_are_refused() {
    let empty: Vec<u8> = Vec::new();
    assert_eq!(decode_msg(&empty), None);
    let bad_tag: Vec<u8> = vec![9, 0, 0, 0, 0, 0, 0, 0, 0];
    assert_eq!(decode_msg(&bad_tag), None);
    let mut truncated = encode_msg(&StreamingRpcChannelMsg::Next(42));
    truncated.pop();
    assert_eq!(decode_msg(&truncated), None);
}
