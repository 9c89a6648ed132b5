use std::collections::VecDeque;

use mina_node::yamux_frame::{
    parse, YamuxFlags, YamuxFrame, YamuxFrameInner, YamuxFrameParseError, YamuxFrameParseResult,
    YamuxPing, YamuxSessionError,
};
use mina_node::yamux_state::{P2pNetworkYamuxState, YamuxStreamState};

fn no_flags() -> YamuxFlags {
    YamuxFlags { syn: false, ack: false, fin: false, rst: false }
}

#[test]
fn ping_frame_parses_back() {
    // 12 header bytes: version 0, type 2 (ping), flags SYN, stream 0, opaque 123
    let bytes: Vec<u8> = vec![0x00, 0x02, 0x00, 0x01, 0, 0, 0, 0, 0, 0, 0, 0x7b];
    match parse(&bytes) {
        YamuxFrameParseResult::Parsed { frame, consumed } => {
            assert_eq!(consumed, 12);
            assert_eq!(frame.stream_id, 0);
            assert_eq!(frame.flags, YamuxFlags { syn: true, ack: false, fin: false, rst: false });
            assert_eq!(frame.inner, YamuxFrameInner::Ping { opaque: 123 });
            assert_eq!(frame.into_bytes(), bytes);
        },
        other => panic!("expected a parsed ping frame, got {:?}", other),
    }
}

#[test]
fn data_frame_round_trips() {
    let frame = YamuxFrame {
        flags: YamuxFlags { syn: false, ack: true, fin: false, rst: false },
        stream_id: 7,
        inner: YamuxFrameInner::Data(vec![1, 2, 3, 4, 5]),
    };
    let bytes = frame.into_bytes();
    assert_eq!(bytes.len(), 17);
    match parse(&bytes) {
        YamuxFrameParseResult::Parsed { frame, consumed } => {
            assert_eq!(consumed, 17);
            assert_eq!(frame.stream_id, 7);
            assert_eq!(frame.flags, YamuxFlags { syn: false, ack: true, fin: false, rst: false });
            assert_eq!(frame.inner, YamuxFrameInner::Data(vec![1, 2, 3, 4, 5]));
        },
        other => panic!("expected a parsed data frame, got {:?}", other),
    }
}

#[test]
fn window_update_round_trips_negative_delta() {
    let frame = YamuxFrame {
        flags: no_flags(),
        stream_id: 3,
        inner: YamuxFrameInner::WindowUpdate { difference: -200 },
    };
    let bytes = frame.into_bytes();
    match parse(&bytes) {
        YamuxFrameParseResult::Parsed { frame, .. } => {
            assert_eq!(frame.inner, YamuxFrameInner::WindowUpdate { difference: -200 });
        },
        other => panic!("expected a parsed window update, got {:?}", other),
    }
}

#[test]
fn goaway_round_trips_each_code() {
    for res in [Ok(()), Err(YamuxSessionError::Protocol), Err(YamuxSessionError::Internal)] {
        let frame = YamuxFrame {
            flags: no_flags(),
            stream_id: 0,
            inner: YamuxFrameInner::GoAway(res),
        };
        let bytes = frame.into_bytes();
        match parse(&bytes) {
            YamuxFrameParseResult::Parsed { frame, .. } => {
                assert_eq!(frame.inner, YamuxFrameInner::GoAway(res));
            },
            other => panic!("expected a parsed go-away, got {:?}", other),
        }
    }
}

#[test]
fn short_buffer_is_incomplete() {
    let bytes: Vec<u8> = vec![0x00, 0x02, 0x00];
    assert_eq!(parse(&bytes), YamuxFrameParseResult::Incomplete);
}

#[test]
fn data_frame_waits_for_payload() {
    // data frame announcing 5 payload bytes, only 2 present
    let bytes: Vec<u8> = vec![0, 0, 0, 0, 0, 0, 0, 1, 0, 0, 0, 5, 9, 9];
    assert_eq!(parse(&bytes), YamuxFrameParseResult::Incomplete);
}

#[test]
fn bad_version_is_refused() {
    let bytes: Vec<u8> = vec![0x01, 0x02, 0x00, 0x00, 0, 0, 0, 0, 0, 0, 0, 0];
    assert_eq!(
        parse(&bytes),
        YamuxFrameParseResult::Failed(YamuxFrameParseError::UnknownVersion(1))
    );
}

#[test]
fn bad_flags_are_refused() {
    let bytes: Vec<u8> = vec![0x00, 0x02, 0x00, 0x10, 0, 0, 0, 0, 0, 0, 0, 0];
    assert_eq!(
        parse(&bytes),
        YamuxFrameParseResult::Failed(YamuxFrameParseError::UnknownFlags(16))
    );
}

#[test]
fn bad_type_is_refused() {
    let bytes: Vec<u8> = vec![0x00, 0x04, 0x00, 0x00, 0, 0, 0, 0, 0, 0, 0, 0];
    assert_eq!(
        parse(&bytes),
        YamuxFrameParseResult::Failed(YamuxFrameParseError::UnknownType(4))
    );
}

#[test]
fn bad_goaway_code_is_refused() {
    let bytes: Vec<u8> = vec![0x00, 0x03, 0x00, 0x00, 0, 0, 0, 0, 0, 0, 0, 9];
    assert_eq!(
        parse(&bytes),
        YamuxFrameParseResult::Failed(YamuxFrameParseError::UnknownErrorCode(9))
    );
}

#[test]
fn ping_request_and_response_flags() {
    let req = YamuxPing { stream_id: 0, opaque: 123, response: false }.into_frame();
    assert_eq!(req.flags, YamuxFlags { syn: true, ack: false, fin: false, rst: false });
    let resp = YamuxPing { stream_id: 0, opaque: 123, response: true }.into_frame();
    assert_eq!(resp.flags, YamuxFlags { syn: false, ack: true, fin: false, rst: false });
    let late = YamuxPing { stream_id: 4, opaque: 9, response: false }.into_frame();
    assert_eq!(late.flags, YamuxFlags { syn: false, ack: false, fin: false, rst: false });
}

fn session_with_streams(ids: &[u32]) -> P2pNetworkYamuxState {
    let mut streams = Vec::new();
    for id in ids {
        streams.push((*id, YamuxStreamState::default()));
    }
    P2pNetworkYamuxState {
        buffer: Vec::new(),
        incoming: VecDeque::new(),
        streams,
        terminated: None,
        init: true,
    }
}

#[test]
fn next_stream_id_uses_own_parity() {
    let session = session_with_streams(&[1, 3, 5]);
    assert_eq!(session.next_stream_id(true), Some(7));
    assert_eq!(session.next_stream_id(false), Some(2));
}

#[test]
fn next_stream_id_needs_init_and_no_termination() {
    let mut session = session_with_streams(&[1]);
    session.init = false;
    assert_eq!(session.next_stream_id(true), None);
    session.init = true;
    session.terminated = Some(Ok(Ok(())));
    assert_eq!(session.next_stream_id(true), None);
}

#[test]
fn open_outgoing_stream_marks_syn_with_own_parity() {
    let mut session = session_with_streams(&[1, 2, 3]);
    let id = session.open_outgoing_stream(true);
    assert_eq!(id, Some(5));
    let entry = session.streams.iter().find(|(sid, _)| *sid == 5).unwrap();
    assert!(entry.1.syn_sent);
    assert!(!entry.1.incoming);
    // the table stays sorted
    let keys: Vec<u32> = session.streams.iter().map(|(sid, _)| *sid).collect();
    assert_eq!(keys, vec![1, 2, 3, 5]);
}

#[test]
fn accept_incoming_stream_keeps_syn_rule() {
    let mut session = session_with_streams(&[1, 3]);
    session.accept_incoming_stream(2, true);
    let entry = session.streams.iter().find(|(sid, _)| *sid == 2).unwrap();
    assert!(entry.1.incoming);
    assert!(!entry.1.syn_sent);
    let keys: Vec<u32> = session.streams.iter().map(|(sid, _)| *sid).collect();
    assert_eq!(keys, vec![1, 2, 3]);
}

#[test]
fn buffered_bytes_become_frames_once_whole() {
    let mut session = session_with_streams(&[]);
    let ping: Vec<u8> = vec![0x00, 0x02, 0x00, 0x01, 0, 0, 0, 0, 0, 0, 0, 0x7b];
    // half a header: nothing to take yet
    session.buffer_incoming_bytes(ping[..6].to_vec());
    assert!(!session.process_buffer_once());
    assert!(session.incoming.is_empty());
    // the rest arrives, plus the start of a second frame
    session.buffer_incoming_bytes(ping[6..].to_vec());
    session.buffer_incoming_bytes(vec![0x00, 0x01]);
    assert!(session.process_buffer_once());
    assert_eq!(session.incoming.len(), 1);
    let frame = session.incoming.pop_front().unwrap();
    assert_eq!(frame.inner, YamuxFrameInner::Ping { opaque: 123 });
    assert_eq!(session.buffer, vec![0x00, 0x01]);
    assert!(!session.process_buffer_once());
}

#[test]
fn framing_violation_terminates_the_session() {
    let mut session = session_with_streams(&[]);
    session.buffer_incoming_bytes(vec![0x09, 0, 0, 0, 0, 0, 0, 0, 0, 0, 0, 0]);
    assert!(!session.process_buffer_once());
    assert_eq!(session.terminated, Some(Err(YamuxFrameParseError::UnknownVersion(9))));
    // once terminated, nothing is parsed any more
    assert!(!session.process_buffer_once());
}

#[test]
fn default_stream_windows_are_256_kib() {
    let st = YamuxStreamState::default();
    assert_eq!(st.window_ours, 256 * 1024);
    assert_eq!(st.window_theirs, 256 * 1024);
    assert!(!st.incoming);
    let inc = YamuxStreamState::incoming();
    assert!(inc.incoming);
    assert_eq!(inc.window_ours, 256 * 1024);
}
