use actix_ws_redis_protobuf::hub::Hub;
use actix_ws_redis_protobuf::message::ServerMessage;
use actix_ws_redis_protobuf::ws::{
    Frame, FrameAction, HeartbeatAction, ProtocolError, SessionState, WsSession,
    CLIENT_TIMEOUT_MS,
};

fn expect_one_text(msgs: &[ServerMessage], want: &str) {
    assert_eq!(msgs.len(), 1);
    match &msgs[0] {
        ServerMessage::Text(s) => assert_eq!(s, want),
        ServerMessage::Binary(_) => panic!("unexpected binary message"),
    }
}

#[test]
fn two_sessions_both_receive_the_senders_text() {
    let mut hub = Hub::default();
    let mut s1 = WsSession::new(1, 0);
    let mut s2 = WsSession::new(2, 0);
    s1.started(&mut hub);
    s2.started(&mut hub);

    let act = s1.handle(Ok(Frame::Text("hi".to_string())), 10, &mut hub, None);
    assert!(matches!(act, FrameAction::Idle));

    // broadcast goes to all live sessions, the sender included
    expect_one_text(&hub.take_messages(1), "hi");
    expect_one_text(&hub.take_messages(2), "hi");
}

#[test]
fn broadcast_after_disconnect_reaches_no_one_and_raises_no_error() {
    let mut hub = Hub::default();
    let mut s1 = WsSession::new(1, 0);
    s1.started(&mut hub);
    s1.handle(Ok(Frame::Close), 5, &mut hub, None);
    s1.stopped(&mut hub);
    assert_eq!(s1.state, SessionState::Terminated);

    hub.broadcast(&ServerMessage::Text("x".to_string()));
    assert_eq!(hub.subscriber_count(), 0);
    assert_eq!(hub.take_messages(1).len(), 0);
}

#[test]
fn silent_peer_is_disconnected_on_the_first_tick_past_the_timeout() {
    let mut hub = Hub::default();
    let mut s = WsSession::with_timeout(1, 0, 30_000);
    s.started(&mut hub);

    // exactly at the timeout the peer is still tolerated
    assert_eq!(s.heartbeat_tick(30_000), HeartbeatAction::SendPing);
    assert_eq!(s.state, SessionState::Active);

    // one tick past it the session is told to disconnect
    assert_eq!(s.heartbeat_tick(30_001), HeartbeatAction::Disconnect);
    assert_eq!(s.state, SessionState::Closing);

    // and teardown removes it from the live set
    s.stopped(&mut hub);
    assert!(!hub.is_subscribed(1));
}

#[test]
fn pong_refreshes_the_heartbeat() {
    let mut hub = Hub::default();
    let mut s = WsSession::new(1, 0);
    s.started(&mut hub);

    let act = s.handle(
        Ok(Frame::Pong(bytes::Bytes::new())),
        20_000,
        &mut hub,
        None,
    );
    assert!(matches!(act, FrameAction::Idle));
    assert_eq!(s.last_heartbeat, 20_000);

    // 30 000 ms of silence now count from the pong, not from creation
    assert_eq!(s.heartbeat_tick(50_000), HeartbeatAction::SendPing);
    assert_eq!(s.heartbeat_tick(50_001), HeartbeatAction::Disconnect);
}

#[test]
fn ping_is_answered_with_the_same_payload() {
    let mut hub = Hub::default();
    let mut s = WsSession::new(1, 0);
    s.started(&mut hub);

    let act = s.handle(
        Ok(Frame::Ping(bytes::Bytes::from(vec![4u8, 5]))),
        7,
        &mut hub,
        None,
    );
    match act {
        FrameAction::SendPong(p) => assert_eq!(p.as_ref(), &[4u8, 5]),
        _ => panic!("expected a pong"),
    }
    assert_eq!(s.last_heartbeat, 7);
}

#[test]
fn binary_frame_is_rebroadcast() {
    let mut hub = Hub::default();
    let mut s1 = WsSession::new(1, 0);
    let mut s2 = WsSession::new(2, 0);
    s1.started(&mut hub);
    s2.started(&mut hub);

    let act = s1.handle(
        Ok(Frame::Binary(bytes::Bytes::from(vec![1u8, 2]))),
        3,
        &mut hub,
        None,
    );
    assert!(matches!(act, FrameAction::Idle));
    for id in [1u64, 2] {
        let msgs = hub.take_messages(id);
        assert_eq!(msgs.len(), 1);
        match &msgs[0] {
            ServerMessage::Binary(b) => assert_eq!(b.as_ref(), &[1u8, 2]),
            ServerMessage::Text(_) => panic!("unexpected text message"),
        }
    }
}

#[test]
fn close_frame_starts_the_close_handshake() {
    let mut hub = Hub::default();
    let mut s = WsSession::new(1, 0);
    s.started(&mut hub);
    let act = s.handle(Ok(Frame::Close), 1, &mut hub, None);
    assert!(matches!(act, FrameAction::CloseConnection));
    assert_eq!(s.state, SessionState::Closing);
}

#[test]
fn protocol_error_stops_the_session() {
    let mut hub = Hub::default();
    let mut s = WsSession::new(1, 0);
    s.started(&mut hub);
    let act = s.handle(Err(ProtocolError), 1, &mut hub, None);
    assert!(matches!(act, FrameAction::Stop));
    assert_eq!(s.state, SessionState::Closing);
    // the error is local to this session: the hub still runs
    assert!(hub.is_subscribed(1));
}

#[test]
fn continuation_frame_is_a_protocol_violation() {
    let mut hub = Hub::default();
    let mut s = WsSession::new(1, 0);
    s.started(&mut hub);
    let act = s.handle(Ok(Frame::Continuation), 1, &mut hub, None);
    assert!(matches!(act, FrameAction::Stop));
    assert_eq!(s.state, SessionState::Closing);
}

#[test]
fn nop_frame_changes_nothing() {
    let mut hub = Hub::default();
    let mut s = WsSession::new(1, 5);
    s.started(&mut hub);
    let act = s.handle(Ok(Frame::Nop), 9, &mut hub, None);
    assert!(matches!(act, FrameAction::Idle));
    assert_eq!(s.last_heartbeat, 5);
    assert_eq!(s.state, SessionState::Active);
}

#[test]
fn new_session_uses_the_default_timeout() {
    let s = WsSession::new(3, 11);
    assert_eq!(s.timeout_ms, CLIENT_TIMEOUT_MS);
    assert_eq!(s.last_heartbeat, 11);
    assert_eq!(s.state, SessionState::Starting);
}
