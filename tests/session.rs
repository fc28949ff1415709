use ivory::frame::{RpcRequest, PING_SEQ_ID, STATUS_OK, STATUS_PROTOCOL_ERROR};
use ivory::metadata::{
    msg_kind, Codec, Metadata, MetadataError, MsgKind, CODEC_JSON, COMPRESS_GZIP, MSG_NOTIFY, MSG_PING,
    MSG_REQUEST, X_RPC_CODEC_TYPE, X_RPC_COMPRESS_TYPE, X_RPC_MSG_TYPE,
};
use ivory::session::{Action, ProtocolError, Session, SessionState};
use ivory::shutdown::Shutdown;

fn request(kind: Option<&str>, path: &str, payload: &[u8], seq_id: i64) -> RpcRequest {
    let mut metadata = Metadata::new();
    if let Some(k) = kind {
        metadata.insert(X_RPC_MSG_TYPE.to_string(), k.to_string());
    }
    RpcRequest {
        service_path: path.to_string(),
        metadata,
        payload: payload.to_vec(),
        seq_id,
    }
}

fn running() -> Session {
    Session::new(Shutdown::new(false))
}

#[test]
fn echo_request_gets_response_with_same_seq_id() {
    let mut s = running();
    let req = match s.on_frame(request(Some(MSG_REQUEST), "Echo.Say", b"hi", 1)) {
        Action::Dispatch(r) => r,
        other => panic!("expected dispatch, got {:?}", other),
    };
    assert_eq!(req.service_path, "Echo.Say");
    assert_eq!(s.in_flight(), 1);
    let echoed = req.payload.clone();
    match s.complete(&req, 0, String::new(), echoed) {
        Action::Write(resp) => {
            assert_eq!(resp.code, 0);
            assert_eq!(resp.payload, b"hi".to_vec());
            assert_eq!(resp.seq_id, 1);
            assert_eq!(msg_kind(&resp.metadata), Ok(MsgKind::Response));
        }
        other => panic!("expected write, got {:?}", other),
    }
    assert_eq!(s.in_flight(), 0);
    assert_eq!(s.state(), SessionState::Running);
}

#[test]
fn responses_may_complete_out_of_order() {
    let mut s = running();
    let a = match s.on_frame(request(Some(MSG_REQUEST), "A.a", b"1", 10)) {
        Action::Dispatch(r) => r,
        other => panic!("{:?}", other),
    };
    let b = match s.on_frame(request(Some(MSG_REQUEST), "B.b", b"2", 11)) {
        Action::Dispatch(r) => r,
        other => panic!("{:?}", other),
    };
    match s.complete(&b, 0, String::new(), b"two".to_vec()) {
        Action::Write(resp) => assert_eq!(resp.seq_id, 11),
        other => panic!("{:?}", other),
    }
    match s.complete(&a, 5, "failed".to_string(), Vec::new()) {
        Action::Write(resp) => {
            assert_eq!(resp.seq_id, 10);
            assert_eq!(resp.code, 5);
            assert_eq!(resp.message, "failed");
        }
        other => panic!("{:?}", other),
    }
    assert!(matches!(s.complete(&a, 0, String::new(), Vec::new()), Action::Wait));
}

#[test]
fn missing_message_kind_fails_only_this_session() {
    let mut s = running();
    let mut other = running();
    match s.on_frame(request(None, "Echo.Say", b"hi", 7)) {
        Action::WriteThenExit(resp) => {
            assert_eq!(resp.seq_id, 7);
            assert_eq!(resp.code, STATUS_PROTOCOL_ERROR);
            assert_eq!(msg_kind(&resp.metadata), Ok(MsgKind::Error));
        }
        a => panic!("expected error frame, got {:?}", a),
    }
    assert_eq!(
        s.state(),
        SessionState::Failed(ProtocolError::Metadata(MetadataError::MissingMsgKind))
    );
    assert!(s.is_done());
    assert!(matches!(s.on_frame(request(Some(MSG_REQUEST), "x", b"", 8)), Action::Exit));
    assert!(matches!(
        other.on_frame(request(Some(MSG_REQUEST), "Echo.Say", b"hi", 7)),
        Action::Dispatch(_)
    ));
    assert_eq!(other.state(), SessionState::Running);
}

#[test]
fn unknown_message_kind_is_a_protocol_error() {
    let mut s = running();
    assert!(matches!(s.on_frame(request(Some("msg.bogus"), "x", b"", 3)), Action::WriteThenExit(_)));
    assert_eq!(
        s.state(),
        SessionState::Failed(ProtocolError::Metadata(MetadataError::UnknownMsgKind))
    );
}

#[test]
fn duplicate_seq_id_in_flight_is_a_protocol_error() {
    let mut s = running();
    assert!(matches!(s.on_frame(request(Some(MSG_REQUEST), "x", b"", 4)), Action::Dispatch(_)));
    match s.on_frame(request(Some(MSG_REQUEST), "x", b"", 4)) {
        Action::WriteThenExit(resp) => assert_eq!(resp.seq_id, 4),
        a => panic!("{:?}", a),
    }
    assert_eq!(s.state(), SessionState::Failed(ProtocolError::DuplicateSeqId));
    assert_eq!(s.in_flight(), 0);
}

#[test]
fn reserved_seq_id_on_request_is_a_protocol_error() {
    let mut s = running();
    assert!(matches!(s.on_frame(request(Some(MSG_REQUEST), "x", b"", PING_SEQ_ID)), Action::WriteThenExit(_)));
    assert_eq!(s.state(), SessionState::Failed(ProtocolError::ReservedSeqId));
}

#[test]
fn ping_is_answered_with_pong_and_not_tracked() {
    let mut s = running();
    match s.on_frame(request(Some(MSG_PING), "", b"", PING_SEQ_ID)) {
        Action::Write(resp) => {
            assert_eq!(resp.seq_id, PING_SEQ_ID);
            assert_eq!(resp.code, STATUS_OK);
            assert_eq!(msg_kind(&resp.metadata), Ok(MsgKind::Pong));
        }
        a => panic!("{:?}", a),
    }
    assert_eq!(s.in_flight(), 0);
}

#[test]
fn notify_needs_no_answer() {
    let mut s = running();
    assert!(matches!(s.on_frame(request(Some(MSG_NOTIFY), "x", b"", 2)), Action::Wait));
    assert_eq!(s.in_flight(), 0);
}

#[test]
fn shutdown_with_pending_request_still_writes_response() {
    let mut s = running();
    let req = match s.on_frame(request(Some(MSG_REQUEST), "Echo.Say", b"hi", 1)) {
        Action::Dispatch(r) => r,
        a => panic!("{:?}", a),
    };
    assert!(matches!(s.on_shutdown(), Action::Wait));
    assert_eq!(s.state(), SessionState::Draining);
    assert!(s.is_shutdown());
    assert!(matches!(s.on_frame(request(Some(MSG_REQUEST), "Echo.Say", b"late", 2)), Action::Wait));
    assert_eq!(s.in_flight(), 1);
    match s.complete(&req, 0, String::new(), b"hi".to_vec()) {
        Action::WriteThenExit(resp) => assert_eq!(resp.seq_id, 1),
        a => panic!("{:?}", a),
    }
    assert_eq!(s.state(), SessionState::Closed);
}

#[test]
fn shutdown_when_idle_exits_at_once() {
    let mut s = running();
    assert!(matches!(s.on_shutdown(), Action::Exit));
    assert_eq!(s.state(), SessionState::Closed);
}

#[test]
fn shutdown_observation_is_monotonic() {
    let mut s = running();
    assert!(!s.is_shutdown());
    s.on_shutdown();
    assert!(s.is_shutdown());
    s.on_frame(request(Some(MSG_PING), "", b"", PING_SEQ_ID));
    s.on_eof(false);
    s.on_shutdown();
    assert!(s.is_shutdown());
}

#[test]
fn session_created_after_signal_starts_closed() {
    let s = Session::new(Shutdown::new(true));
    assert!(s.is_shutdown());
    assert!(s.is_done());
}

#[test]
fn end_of_stream_clean_or_truncated() {
    let mut a = running();
    assert!(matches!(a.on_eof(false), Action::Exit));
    assert_eq!(a.state(), SessionState::Closed);
    let mut b = running();
    b.on_frame(request(Some(MSG_REQUEST), "x", b"", 9));
    assert!(matches!(b.on_eof(true), Action::Exit));
    assert_eq!(b.state(), SessionState::Failed(ProtocolError::Truncated));
    assert_eq!(b.in_flight(), 0);
}

#[test]
fn shutdown_watch_observe() {
    let mut w = Shutdown::new(false);
    assert!(w.needs_recv());
    w.observe();
    assert!(w.is_shutdown());
    assert!(!w.needs_recv());
    w.observe();
    assert!(w.is_shutdown());
}

fn request_with(extra: &[(&str, &str)], seq_id: i64) -> RpcRequest {
    let mut r = request(Some(MSG_REQUEST), "Svc.m", b"", seq_id);
    for (k, v) in extra {
        r.metadata.insert(k.to_string(), v.to_string());
    }
    r
}

#[test]
fn codec_starts_at_default_and_follows_advertised_codec() {
    let mut s = running();
    assert_eq!(s.codec(), Codec::Protobuf);
    assert!(matches!(s.on_frame(request_with(&[], 1)), Action::Dispatch(_)));
    assert_eq!(s.codec(), Codec::Protobuf);
    assert!(matches!(s.on_frame(request_with(&[(X_RPC_CODEC_TYPE, CODEC_JSON)], 2)), Action::Dispatch(_)));
    assert_eq!(s.codec(), Codec::Json);
    assert!(matches!(s.on_frame(request_with(&[], 3)), Action::Dispatch(_)));
    assert_eq!(s.codec(), Codec::Json);
}

#[test]
fn unknown_codec_or_compression_is_a_protocol_error() {
    let mut a = running();
    match a.on_frame(request_with(&[(X_RPC_CODEC_TYPE, "codec.xml")], 5)) {
        Action::WriteThenExit(resp) => assert_eq!(resp.seq_id, 5),
        other => panic!("{:?}", other),
    }
    assert_eq!(a.state(), SessionState::Failed(ProtocolError::Metadata(MetadataError::UnknownCodec)));
    let mut b = running();
    assert!(matches!(
        b.on_frame(request_with(&[(X_RPC_COMPRESS_TYPE, "compress.lz4")], 6)),
        Action::WriteThenExit(_)
    ));
    assert_eq!(b.state(), SessionState::Failed(ProtocolError::Metadata(MetadataError::UnknownCompression)));
    let mut c = running();
    assert!(matches!(
        c.on_frame(request_with(&[(X_RPC_COMPRESS_TYPE, COMPRESS_GZIP)], 7)),
        Action::Dispatch(_)
    ));
}
