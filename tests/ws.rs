use odin_sentinel::{
    get_next_msg_id, OdinSentinelError, SensorCapability, SessionAction, SessionPhase, WsCmd, WsMsg,
    WsSession,
};

#[test]
fn handshake_sends_join_with_first_message_id() {
    let mut s = WsSession::new(vec!["roo7gd1dldn3".to_string()]);
    let a = s.on_message(WsMsg::Connected { message: "connected".to_string() }, 0);
    assert_eq!(
        a,
        SessionAction::Send(WsMsg::Join { device_ids: vec!["roo7gd1dldn3".to_string()], message_id: "1".to_string() })
    );
    assert_eq!(s.phase, SessionPhase::AwaitJoin);
    let a = s.on_message(WsMsg::Join { device_ids: vec!["roo7gd1dldn3".to_string()], message_id: "1".to_string() }, 0);
    assert_eq!(a, SessionAction::Continue);
    assert_eq!(s.phase, SessionPhase::Reading);
}

#[test]
fn unexpected_join_response_is_protocol_error() {
    let mut s = WsSession::new(vec!["roo7gd1dldn3".to_string()]);
    s.on_message(WsMsg::Connected { message: "connected".to_string() }, 0);
    let a = s.on_message(WsMsg::Error { message: "nope".to_string() }, 0);
    assert_eq!(
        a,
        SessionAction::Fail(OdinSentinelError::WsProtocolError(
            "expected 'join' message, got 'error'".to_string()
        ))
    );
    assert_eq!(s.phase, SessionPhase::Closed);
}

#[test]
fn missing_connected_is_protocol_error() {
    let mut s = WsSession::new(vec![]);
    let a = s.on_message(WsMsg::Join { device_ids: vec![], message_id: "1".to_string() }, 0);
    assert_eq!(
        a,
        SessionAction::Fail(OdinSentinelError::WsProtocolError(
            "expected 'connected' message, got 'join'".to_string()
        ))
    );
}

#[test]
fn read_loop_handles_notifications() {
    let mut s = WsSession::new(vec!["d".to_string()]);
    s.on_message(WsMsg::Connected { message: "connected".to_string() }, 0);
    s.on_message(WsMsg::Join { device_ids: vec!["d".to_string()], message_id: "1".to_string() }, 0);
    let a = s.on_message(WsMsg::Record { device_id: "d".to_string(), sensor_no: 37, rec_type: SensorCapability::Image }, 0);
    assert_eq!(
        a,
        SessionAction::FetchRecord { device_id: "d".to_string(), sensor_no: 37, capability: SensorCapability::Image }
    );
    let a = s.on_message(
        WsMsg::Pong { request_time: 100, response_time: 120, message_id: "2".to_string() },
        130,
    );
    assert_eq!(a, SessionAction::Continue);
    assert_eq!(s.last_recv_epoch, 130);
    let a = s.on_message(WsMsg::Error { message: "oops".to_string() }, 140);
    assert_eq!(a, SessionAction::Continue);
    assert_eq!(s.phase, SessionPhase::Reading);
    assert_eq!(s.on_closed(), OdinSentinelError::WsClosedError);
    assert_eq!(s.phase, SessionPhase::Closed);
}

#[test]
fn message_ids_count_up() {
    let mut id = 0u64;
    assert_eq!(get_next_msg_id(&mut id), "1");
    assert_eq!(get_next_msg_id(&mut id), "2");
    id = 41;
    assert_eq!(get_next_msg_id(&mut id), "42");
}

#[test]
fn ping_commands() {
    let p = WsCmd::new_ping("ping");
    match p {
        WsCmd::Ping { request_time, message_id } => {
            assert_eq!(message_id, "ping");
            assert!(request_time > 1_600_000_000_000);
        }
        other => panic!("unexpected {other:?}"),
    }
    assert_eq!(WsCmd::ping(5, "7".to_string()).event(), "ping");
    let alert = WsCmd::TriggerAlert { device_ids: vec![], message_id: "1".to_string() };
    assert_eq!(alert.event(), "trigger-alert");
    assert_eq!(WsMsg::Error { message: "x".to_string() }.event(), "error");
}
