use ha_tunnel::client::tunnel_client::{auth_message, check_auth_response, heartbeat, tunnel_url};
use ha_tunnel::error::ProxyError;
use ha_tunnel::tunnel::{next_step, ReaderStep, TunnelMessage, WsMessage};

fn ping(t: u64) -> TunnelMessage {
    TunnelMessage::Ping { timestamp: t }
}

fn tunnel_error(text: &str) -> Result<TunnelMessage, ProxyError> {
    Err(ProxyError::Tunnel(text.to_string()))
}

#[test]
fn data_frames_yield_their_message() {
    assert_eq!(TunnelMessage::from_ws_message(WsMessage::Text(Ok(ping(7)))), Ok(ping(7)));
    assert_eq!(TunnelMessage::from_ws_message(WsMessage::Binary(Ok(ping(8)))), Ok(ping(8)));
}

#[test]
fn undecodable_frames_report_the_decoder() {
    assert_eq!(
        TunnelMessage::from_ws_message(WsMessage::Text(Err("expected value".into()))),
        tunnel_error("expected value")
    );
    assert_eq!(
        TunnelMessage::from_ws_message(WsMessage::Binary(Err("EOF".into()))),
        tunnel_error("EOF")
    );
}

#[test]
fn control_frames_are_tunnel_errors() {
    assert_eq!(TunnelMessage::from_ws_message(WsMessage::Ping), tunnel_error("Unexpected ping/pong"));
    assert_eq!(TunnelMessage::from_ws_message(WsMessage::Pong), tunnel_error("Unexpected ping/pong"));
    assert_eq!(TunnelMessage::from_ws_message(WsMessage::Close), tunnel_error("Connection closed"));
    assert_eq!(TunnelMessage::from_ws_message(WsMessage::Other), tunnel_error("Unknown message type"));
}

#[test]
fn reader_stops_only_at_the_end() {
    assert_eq!(next_step(None), ReaderStep::Stop);
    assert_eq!(next_step(Some(WsMessage::Close)), ReaderStep::Stop);
    assert_eq!(next_step(Some(WsMessage::Text(Ok(ping(1))))), ReaderStep::Handle(ping(1)));
    assert_eq!(next_step(Some(WsMessage::Binary(Ok(ping(2))))), ReaderStep::Handle(ping(2)));
    assert_eq!(next_step(Some(WsMessage::Text(Err("bad".into())))), ReaderStep::Skip);
    assert_eq!(next_step(Some(WsMessage::Binary(Err("bad".into())))), ReaderStep::Skip);
    assert_eq!(next_step(Some(WsMessage::Ping)), ReaderStep::Skip);
    assert_eq!(next_step(Some(WsMessage::Pong)), ReaderStep::Skip);
    assert_eq!(next_step(Some(WsMessage::Other)), ReaderStep::Skip);
}

#[test]
fn tunnel_address_is_appended() {
    assert_eq!(tunnel_url("wss://edge.example"), "wss://edge.example/tunnel");
    assert_eq!(tunnel_url(""), "/tunnel");
}

#[test]
fn auth_message_carries_the_signature() {
    assert_eq!(
        auth_message("c", 1000, "s"),
        TunnelMessage::Auth {
            client_id: "c".to_string(),
            timestamp: 1000,
            signature: "190d682abb7a1c4ac3a128aba3672c5e9ae55e0bf5dfabd527f3ae1f8367499e"
                .to_string(),
        }
    );
}

#[test]
fn heartbeat_is_a_ping_of_now() {
    assert_eq!(heartbeat(42), ping(42));
}

#[test]
fn welcome_ends_the_handshake() {
    let welcome = TunnelMessage::AuthResponse { success: true, message: None };
    assert_eq!(check_auth_response(Some(Ok(WsMessage::Text(Ok(welcome.clone()))))), Ok(()));
    assert_eq!(check_auth_response(Some(Ok(WsMessage::Binary(Ok(welcome))))), Ok(()));
}

#[test]
fn refusal_is_an_authentication_failure() {
    let refused = TunnelMessage::AuthResponse {
        success: false,
        message: Some("Invalid signature".to_string()),
    };
    assert_eq!(
        check_auth_response(Some(Ok(WsMessage::Text(Ok(refused))))),
        Err(ProxyError::AuthFailed("Invalid signature".to_string()))
    );
    let silent = TunnelMessage::AuthResponse { success: false, message: None };
    assert_eq!(
        check_auth_response(Some(Ok(WsMessage::Text(Ok(silent))))),
        Err(ProxyError::AuthFailed("Unknown error".to_string()))
    );
    assert_eq!(
        check_auth_response(Some(Ok(WsMessage::Text(Ok(ping(1)))))),
        Err(ProxyError::AuthFailed("Unexpected response".to_string()))
    );
}

#[test]
fn missing_or_broken_answer_is_a_connection_or_tunnel_error() {
    assert_eq!(
        check_auth_response(None),
        Err(ProxyError::Connection("No auth response".to_string()))
    );
    assert_eq!(
        check_auth_response(Some(Err("reset by peer".to_string()))),
        Err(ProxyError::Connection("reset by peer".to_string()))
    );
    assert_eq!(
        check_auth_response(Some(Ok(WsMessage::Close))),
        Err(ProxyError::Tunnel("Connection closed".to_string()))
    );
    assert_eq!(
        check_auth_response(Some(Ok(WsMessage::Text(Err("bad json".to_string()))))),
        Err(ProxyError::Tunnel("bad json".to_string()))
    );
}
