//! The client's side of the handshake, and its heartbeat.

use crate::error::{ProxyError, ProxyErrorView};
use crate::tunnel::{
    auth_signature, frame_outcome, generate_auth_signature, MessageView, TunnelMessage, WsMessage,
};
use vstd::prelude::*;

verus! {

/// The address of the control connection at a server.
pub open spec fn tunnel_url_of(server: Seq<char>) -> Seq<char> {
    server + "/tunnel"@
}

/// Builds the address of the control connection at a server.
pub fn tunnel_url(server: &str) -> (url: String)
    ensures
        url@ == tunnel_url_of(server@),
{
    String::from_str(server).concat("/tunnel")
}

/// Builds the message by which the client `client_id` authenticates at
/// time `now`.
pub fn auth_message(client_id: &str, now: u64, secret: &str) -> (message: TunnelMessage)
    ensures
        message@ == (MessageView::Auth {
            client_id: client_id@,
            timestamp: now,
            signature: auth_signature(client_id@, now, secret@),
        }),
{
    TunnelMessage::Auth {
        client_id: String::from_str(client_id),
        timestamp: now,
        signature: generate_auth_signature(client_id, now, secret),
    }
}

/// Builds the probe that the client sends at time `now`.
pub fn heartbeat(now: u64) -> (message: TunnelMessage)
    ensures
        message@ == (MessageView::Ping { timestamp: now }),
{
    TunnelMessage::Ping { timestamp: now }
}

/// What the server's first frame means for the client: nothing where the
/// server welcomes it, and else the error that ends the attempt. A frame of
/// `None` stands for a connection that ended before any frame came, a frame
/// of `Err` for a failure of the transport.
pub open spec fn handshake_error(first: Option<Result<WsMessage, String>>) -> Option<
    ProxyErrorView,
> {
    match first {
        None => Some(ProxyErrorView::Connection("No auth response"@)),
        Some(Err(e)) => Some(ProxyErrorView::Connection(e@)),
        Some(Ok(frame)) => match frame_outcome(frame) {
            Err(e) => Some(e),
            Ok(MessageView::AuthResponse { success, message }) => if success {
                None
            } else {
                Some(
                    ProxyErrorView::AuthFailed(
                        match message {
                            Some(m) => m,
                            None => "Unknown error"@,
                        },
                    ),
                )
            },
            Ok(_) => Some(ProxyErrorView::AuthFailed("Unexpected response"@)),
        },
    }
}

/// Judges the server's answer to the authentication message.
pub fn check_auth_response(first: Option<Result<WsMessage, String>>) -> (r: Result<(), ProxyError>)
    ensures
        match handshake_error(first) {
            None => r is Ok,
            Some(e) => r matches Err(err) && err@ == e,
        },
{
    let frame = match first {
        None => {
            return Err(ProxyError::Connection(String::from_str("No auth response")));
        },
        Some(Err(e)) => {
            return Err(ProxyError::Connection(e));
        },
        Some(Ok(frame)) => frame,
    };
    let response = match TunnelMessage::from_ws_message(frame) {
        Ok(m) => m,
        Err(e) => {
            return Err(e);
        },
    };
    match response {
        TunnelMessage::AuthResponse { success, message } => {
            if success {
                Ok(())
            } else {
                match message {
                    Some(m) => Err(ProxyError::AuthFailed(m)),
                    None => Err(ProxyError::AuthFailed(String::from_str("Unknown error"))),
                }
            }
        },
        _ => Err(ProxyError::AuthFailed(String::from_str("Unexpected response"))),
    }
}

} // verus!
