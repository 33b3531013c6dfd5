use spotatui::infra::network::sync::{
    party_reader_step, relay_connect_url, ControlMode, PartyStatus, RelayFrame, SyncMessage,
};

#[test]
fn labels() {
    assert_eq!(ControlMode::default().label(), "Host Only");
    assert_eq!(ControlMode::SharedControl.label(), "Shared Control");
    assert_eq!(PartyStatus::default().label(), "Disconnected");
    assert_eq!(PartyStatus::Connecting.label(), "Connecting...");
}

#[test]
fn reader_reactions() {
    let s = party_reader_step(RelayFrame::Text(Some(SyncMessage::Heartbeat)));
    assert_eq!(s.forward, Some(SyncMessage::Heartbeat));
    assert!(!s.stop);
    let s = party_reader_step(RelayFrame::Text(None));
    assert_eq!(s.forward, None);
    assert!(!s.stop);
    let s = party_reader_step(RelayFrame::Close);
    assert_eq!(s.forward, Some(SyncMessage::RoomClosed));
    assert!(s.stop);
    let s = party_reader_step(RelayFrame::Failed("reset".to_string()));
    assert_eq!(s.forward, Some(SyncMessage::Error { message: "Connection lost: reset".to_string() }));
    assert!(s.stop);
    assert!(!party_reader_step(RelayFrame::Other).stop);
}

#[test]
fn relay_url_appends_action_then_params() {
    let params = vec![("code".to_string(), "AB 12".to_string())];
    assert_eq!(
        relay_connect_url("wss://relay.example/ws", "join", &params).unwrap(),
        "wss://relay.example/ws?action=join&code=AB+12"
    );
    let err = relay_connect_url("not a url", "host", &vec![]).unwrap_err();
    assert!(err.starts_with("Invalid relay URL: "), "got: {err}");
}
