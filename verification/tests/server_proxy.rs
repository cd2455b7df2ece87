use ha_tunnel::server::config::{Config, ProxyMode};
use ha_tunnel::server::proxy::{
    authenticate, conclude, dispatch_request, forward_request, handle_client_message,
    health_check, register_client, remove_client, request_body, response_headers,
    is_hop_by_hop_header, settle, tunnel_request, turn_away, AuthVerdict, Awaited, Dispatch,
    Enqueued, Offer, PublicRequest, PublicResponse, ReaderAction, ServerState,
    AUTH_TIMEOUT_SECS, MAX_BODY_BYTES, OUTBOUND_CAPACITY,
};
use ha_tunnel::tunnel::{generate_auth_signature, TunnelMessage, WsMessage};
use tokio::sync::{mpsc, oneshot};

fn state() -> ServerState {
    ServerState::new(Config {
        host: "0.0.0.0".to_string(),
        port: 3000,
        secret: "s".to_string(),
        client_timeout: 10,
        request_timeout: 30,
        proxy_mode: ProxyMode::Direct,
        trusted_proxies: vec![],
    })
}

fn public_request() -> PublicRequest {
    PublicRequest {
        method: "POST".to_string(),
        path: "/api/alexa/smart_home".to_string(),
        query: Some("a=1".to_string()),
        headers: vec![("accept".to_string(), "*/*".to_string())],
        body: Some(b"{\"x\":1}".to_vec()),
        source_ip: "203.0.113.5".to_string(),
    }
}

fn response(id: &str, status: u16, body: &[u8]) -> TunnelMessage {
    TunnelMessage::HttpResponse {
        request_id: id.to_string(),
        status,
        headers: vec![],
        body: Some(body.to_vec()),
    }
}

/// Makes the offer that the library hands back, and settles the request.
fn carry_out(state: &mut ServerState, request_id: &str, offer: Offer) -> Dispatch {
    match offer {
        Offer::NoClient => Dispatch::NoClient,
        Offer::Send { queue, message } => {
            let outcome = match queue.try_send(message) {
                Ok(()) => Enqueued::Sent,
                Err(mpsc::error::TrySendError::Full(_)) => Enqueued::Full,
                Err(mpsc::error::TrySendError::Closed(_)) => Enqueued::Closed,
            };
            settle(state, request_id, outcome)
        }
    }
}

fn send(state: &mut ServerState, request_id: &str, slot: oneshot::Sender<TunnelMessage>) -> Dispatch {
    let offer = forward_request(state, request_id.to_string(), slot, public_request());
    carry_out(state, request_id, offer)
}

fn plain(status: u16, text: &str) -> PublicResponse {
    PublicResponse { status, headers: vec![], body: text.as_bytes().to_vec() }
}

fn auth_frame(client_id: &str, timestamp: u64, secret: &str) -> WsMessage {
    WsMessage::Text(Ok(TunnelMessage::Auth {
        client_id: client_id.to_string(),
        timestamp,
        signature: generate_auth_signature(client_id, timestamp, secret),
    }))
}

#[test]
fn matching_signature_is_welcomed() {
    match authenticate(Some(auth_frame("c", 1000, "s")), 1000, "s") {
        AuthVerdict::Accepted { client_id, reply } => {
            assert_eq!(client_id, "c");
            assert_eq!(reply, TunnelMessage::AuthResponse { success: true, message: None });
        }
        _ => panic!("the client was not accepted"),
    }
    assert!(matches!(
        authenticate(Some(auth_frame("c", 1000, "s")), 1120, "s"),
        AuthVerdict::Accepted { .. }
    ));
}

#[test]
fn skewed_or_wrong_signature_is_refused_aloud() {
    let refusal = TunnelMessage::AuthResponse {
        success: false,
        message: Some("Invalid signature".to_string()),
    };
    for (frame, now) in [
        (auth_frame("c", 1000, "s"), 1200),
        (auth_frame("c", 1000, "s"), 1121),
        (auth_frame("c", 1000, "other"), 1000),
    ] {
        match authenticate(Some(frame), now, "s") {
            AuthVerdict::Rejected { reply } => assert_eq!(reply, refusal),
            _ => panic!("the client was not rejected"),
        }
    }
}

#[test]
fn anything_but_auth_is_dropped_in_silence() {
    let ping = TunnelMessage::Ping { timestamp: 1 };
    for first in [
        None,
        Some(WsMessage::Text(Ok(ping.clone()))),
        Some(WsMessage::Text(Err("bad json".to_string()))),
        Some(WsMessage::Close),
        Some(WsMessage::Ping),
        Some(WsMessage::Other),
    ] {
        assert!(matches!(authenticate(first, 1000, "s"), AuthVerdict::Silent));
    }
}

#[test]
fn binary_auth_frame_is_accepted_too() {
    let frame = match auth_frame("c", 1000, "s") {
        WsMessage::Text(m) => WsMessage::Binary(m),
        other => other,
    };
    assert!(matches!(authenticate(Some(frame), 1000, "s"), AuthVerdict::Accepted { .. }));
}

#[test]
fn sessions_are_counted_by_identifier() {
    let mut state = state();
    assert_eq!(health_check(&state), ("no_clients", 0));
    let (tx, _rx) = mpsc::channel(OUTBOUND_CAPACITY);
    assert_eq!(register_client(&mut state, "a".to_string(), tx.clone(), 100), (0, 1));
    assert_eq!(register_client(&mut state, "b".to_string(), tx.clone(), 101), (1, 2));
    assert_eq!(register_client(&mut state, "a".to_string(), tx, 102), (2, 2));
    assert_eq!(health_check(&state), ("ok", 2));
    assert_eq!(state.client_count(), 2);
    assert_eq!(state.clients.get("a").unwrap().connected_at, 102);
    assert_eq!(state.clients.get("a").unwrap().session, 2);
    remove_client(&mut state, "a", 2);
    remove_client(&mut state, "missing", 0);
    assert_eq!(health_check(&state), ("ok", 1));
    remove_client(&mut state, "b", 1);
    assert_eq!(health_check(&state), ("no_clients", 0));
}

#[test]
fn end_of_an_older_session_leaves_the_newer_one() {
    let mut state = state();
    let (old_tx, _old_queue) = mpsc::channel(OUTBOUND_CAPACITY);
    let (new_tx, mut new_queue) = mpsc::channel(OUTBOUND_CAPACITY);
    let (older, _) = register_client(&mut state, "c".to_string(), old_tx, 1000);
    let (newer, _) = register_client(&mut state, "c".to_string(), new_tx, 1001);
    assert_ne!(older, newer);
    remove_client(&mut state, "c", older);
    assert_eq!(state.client_count(), 1);
    {
        let kept = state.clients.get("c").unwrap();
        assert_eq!(kept.session, newer);
        assert_eq!(kept.connected_at, 1001);
        assert_eq!(kept.last_ping, 1001);
        assert_eq!(kept.client_id, "c");
    }
    let (slot, _waiter) = oneshot::channel();
    assert_eq!(
        send(&mut state, "r-1", slot),
        Dispatch::Awaiting
    );
    assert!(new_queue.try_recv().is_ok());
    remove_client(&mut state, "c", newer);
    assert_eq!(state.client_count(), 0);
}

#[test]
fn session_numbers_begin_anew_after_the_largest() {
    let mut state = state();
    state.next_session = u64::MAX;
    let (tx, _rx) = mpsc::channel(OUTBOUND_CAPACITY);
    assert_eq!(register_client(&mut state, "a".to_string(), tx.clone(), 1), (u64::MAX, 1));
    assert_eq!(register_client(&mut state, "a".to_string(), tx, 2), (0, 1));
    assert_eq!(state.next_session, 1);
}

#[test]
fn deadline_for_authentication_is_ten_seconds() {
    assert_eq!(AUTH_TIMEOUT_SECS, 10);
}

#[test]
fn request_without_client_is_turned_away() {
    let mut state = state();
    let (slot, _waiter) = oneshot::channel();
    let dispatch = send(&mut state, "r-1", slot);
    assert_eq!(dispatch, Dispatch::NoClient);
    assert_eq!(state.pending_requests.len(), 0);
    assert_eq!(turn_away(dispatch, false), Some(plain(503, "No connected clients")));
    assert_eq!(
        turn_away(dispatch, true),
        Some(plain(503, "No connected clients (timeout waiting for client)"))
    );
}

#[test]
fn request_is_queued_and_answered() {
    let mut state = state();
    let (tx, mut queue) = mpsc::channel(OUTBOUND_CAPACITY);
    register_client(&mut state, "c".to_string(), tx, 1000);
    let (slot, mut waiter) = oneshot::channel();
    let (request_id, offer) = dispatch_request(&mut state, slot, public_request());
    assert!(state.pending_requests.contains_key(&request_id));
    let dispatch = carry_out(&mut state, &request_id, offer);
    assert_eq!(dispatch, Dispatch::Awaiting);
    assert_eq!(turn_away(dispatch, false), None);
    assert_eq!(request_id.len(), 36);
    assert!(state.pending_requests.contains_key(&request_id));
    assert_eq!(
        queue.try_recv().unwrap(),
        TunnelMessage::HttpRequest {
            request_id: request_id.clone(),
            method: "POST".to_string(),
            path: "/api/alexa/smart_home".to_string(),
            query: Some("a=1".to_string()),
            headers: vec![("accept".to_string(), "*/*".to_string())],
            body: Some(b"{\"x\":1}".to_vec()),
            source_ip: Some("203.0.113.5".to_string()),
        }
    );
    assert!(queue.try_recv().is_err());

    let answer = response(&request_id, 200, b"{\"ok\":true}");
    match handle_client_message(&mut state, "c", answer.clone(), 1001) {
        ReaderAction::Deliver { slot, message } => {
            assert_eq!(message, answer);
            assert!(slot.send(message).is_ok());
        }
        _ => panic!("the answer was not to be delivered"),
    }
    assert_eq!(state.pending_requests.len(), 0);
    let received = waiter.try_recv().unwrap();
    assert_eq!(received, answer);

    let public = conclude(&mut state, &request_id, Awaited::Message(received));
    assert_eq!(
        public,
        PublicResponse { status: 200, headers: vec![], body: b"{\"ok\":true}".to_vec() }
    );

    let late = handle_client_message(&mut state, "c", answer, 1002);
    assert!(matches!(late, ReaderAction::Orphan));
}

#[test]
fn fresh_identifiers_differ() {
    let mut state = state();
    let (tx, _queue) = mpsc::channel(OUTBOUND_CAPACITY);
    register_client(&mut state, "c".to_string(), tx, 1000);
    let (first_slot, _a) = oneshot::channel();
    let (second_slot, _b) = oneshot::channel();
    let (first, first_offer) = dispatch_request(&mut state, first_slot, public_request());
    let (second, second_offer) = dispatch_request(&mut state, second_slot, public_request());
    assert!(matches!(first_offer, Offer::Send { .. }));
    assert!(matches!(second_offer, Offer::Send { .. }));
    assert_ne!(first, second);
    assert_eq!(state.pending_requests.len(), 2);
}

#[test]
fn full_queue_fails_at_once() {
    let mut state = state();
    let (tx, _queue) = mpsc::channel(1);
    tx.try_send(TunnelMessage::Pong { timestamp: 0 }).unwrap();
    register_client(&mut state, "c".to_string(), tx, 1000);
    let (slot, mut waiter) = oneshot::channel();
    let dispatch = send(&mut state, "r-1", slot);
    assert_eq!(dispatch, Dispatch::SendFailed);
    assert_eq!(state.pending_requests.len(), 0);
    assert!(waiter.try_recv().is_err());
    assert_eq!(turn_away(dispatch, false), Some(plain(502, "Failed to forward request")));
}

#[test]
fn closed_queue_fails_and_frees_the_slot() {
    let mut state = state();
    let (tx, queue) = mpsc::channel(OUTBOUND_CAPACITY);
    drop(queue);
    register_client(&mut state, "c".to_string(), tx, 1000);
    let (slot, _waiter) = oneshot::channel();
    let dispatch = send(&mut state, "r-1", slot);
    assert_eq!(dispatch, Dispatch::SendFailed);
    assert!(!state.pending_requests.contains_key("r-1"));
    assert_eq!(state.client_count(), 1);
}

#[test]
fn latest_registration_of_an_identifier_is_the_one_served() {
    let mut state = state();
    let (old_tx, mut old_queue) = mpsc::channel(OUTBOUND_CAPACITY);
    let (new_tx, mut new_queue) = mpsc::channel(OUTBOUND_CAPACITY);
    register_client(&mut state, "c".to_string(), old_tx, 1000);
    register_client(&mut state, "c".to_string(), new_tx, 1001);
    let (slot, _waiter) = oneshot::channel();
    let dispatch = send(&mut state, "r-1", slot);
    assert_eq!(dispatch, Dispatch::Awaiting);
    assert!(old_queue.try_recv().is_err());
    assert!(new_queue.try_recv().is_ok());
}

#[test]
fn timeout_removes_the_slot_before_the_answer() {
    let mut state = state();
    let (tx, _queue) = mpsc::channel(OUTBOUND_CAPACITY);
    register_client(&mut state, "c".to_string(), tx, 1000);
    let (slot, _waiter) = oneshot::channel();
    assert_eq!(
        send(&mut state, "r-1", slot),
        Dispatch::Awaiting
    );
    assert_eq!(state.pending_requests.len(), 1);
    let public = conclude(&mut state, "r-1", Awaited::TimedOut);
    assert_eq!(public, plain(504, "Request timeout"));
    assert_eq!(state.pending_requests.len(), 0);
    let late = handle_client_message(&mut state, "c", response("r-1", 200, b"late"), 1031);
    assert!(matches!(late, ReaderAction::Orphan));
}

#[test]
fn closed_slot_is_an_internal_error() {
    let mut state = state();
    let (slot, _waiter) = oneshot::channel();
    state.pending_requests.insert("r-1".to_string(), slot);
    let public = conclude(&mut state, "r-1", Awaited::Closed);
    assert_eq!(public, plain(500, "Response channel closed"));
    assert_eq!(state.pending_requests.len(), 0);
}

#[test]
fn errors_and_strangers_have_their_status() {
    let mut state = state();
    let error = TunnelMessage::Error {
        request_id: Some("r-1".to_string()),
        code: "upstream_error".to_string(),
        message: "Request error: refused".to_string(),
    };
    assert_eq!(
        conclude(&mut state, "r-1", Awaited::Message(error)),
        plain(403, "Request error: refused")
    );
    let stranger = TunnelMessage::Ping { timestamp: 1 };
    assert_eq!(
        conclude(&mut state, "r-1", Awaited::Message(stranger)),
        plain(500, "Unexpected response")
    );
}

#[test]
fn status_outside_three_digits_becomes_500() {
    let mut state = state();
    for (given, passed) in [(100, 100), (204, 204), (599, 599), (999, 999), (99, 500), (0, 500), (1000, 500), (65535, 500)] {
        let answer = TunnelMessage::HttpResponse {
            request_id: "r".to_string(),
            status: given,
            headers: vec![],
            body: None,
        };
        let public = conclude(&mut state, "r", Awaited::Message(answer));
        assert_eq!(public, PublicResponse { status: passed, headers: vec![], body: vec![] });
    }
}

#[test]
fn hop_by_hop_headers_are_stripped() {
    let header = |n: &str, v: &str| (n.to_string(), v.to_string());
    let upstream = vec![
        header("Content-Type", "application/json"),
        header("Content-Length", "11"),
        header("transfer-encoding", "chunked"),
        header("CONNECTION", "close"),
        header("Keep-Alive", "timeout=5"),
        header("TE", "trailers"),
        header("Trailers", "x"),
        header("Upgrade", "h2c"),
        header("Set-Cookie", "a=1"),
        header("Set-Cookie", "b=2"),
        header("X-Upgrade", "kept"),
    ];
    let kept = vec![
        header("Content-Type", "application/json"),
        header("Set-Cookie", "a=1"),
        header("Set-Cookie", "b=2"),
        header("X-Upgrade", "kept"),
    ];
    assert_eq!(response_headers(&upstream), kept);
    let mut state = state();
    let answer = TunnelMessage::HttpResponse {
        request_id: "r".to_string(),
        status: 200,
        headers: upstream,
        body: Some(b"{}".to_vec()),
    };
    let public = conclude(&mut state, "r", Awaited::Message(answer));
    assert_eq!(public, PublicResponse { status: 200, headers: kept, body: b"{}".to_vec() });
}

#[test]
fn hop_by_hop_headers_are_told_in_any_case() {
    for name in ["Content-Length", "TRANSFER-ENCODING", "connection", "Keep-Alive", "Te", "trailers", "UPGRADE"] {
        assert!(is_hop_by_hop_header(name));
    }
    for name in ["Content-Type", "trailer", "x-upgrade", "", "\u{212a}eep-alive", "connectıon"] {
        assert!(!is_hop_by_hop_header(name));
    }
}

#[test]
fn body_of_exactly_the_limit_is_passed_on() {
    assert_eq!(MAX_BODY_BYTES, 10 * 1024 * 1024);
    let body = vec![7u8; MAX_BODY_BYTES];
    let passed = request_body(body).unwrap();
    assert_eq!(passed.len(), MAX_BODY_BYTES);
    assert!(passed.iter().all(|b| *b == 7));
}

#[test]
fn body_over_the_limit_or_empty_is_absent() {
    assert_eq!(request_body(vec![7u8; MAX_BODY_BYTES + 1]), None);
    assert_eq!(request_body(vec![]), None);
    assert_eq!(request_body(vec![0]), Some(vec![0]));
}

#[test]
fn ping_renews_the_session_and_is_answered() {
    let mut state = state();
    let (tx, mut queue) = mpsc::channel(OUTBOUND_CAPACITY);
    register_client(&mut state, "c".to_string(), tx, 1000);
    match handle_client_message(&mut state, "c", TunnelMessage::Ping { timestamp: 990 }, 1005) {
        ReaderAction::Reply { queue: handle, message } => {
            assert_eq!(message, TunnelMessage::Pong { timestamp: 990 });
            handle.try_send(message).unwrap();
        }
        _ => panic!("the ping was not answered"),
    }
    assert_eq!(queue.try_recv().unwrap(), TunnelMessage::Pong { timestamp: 990 });
    let session = state.clients.get("c").unwrap();
    assert_eq!(session.last_ping, 1005);
    assert_eq!(session.connected_at, 1000);
    assert_eq!(session.session, 0);
    assert_eq!(session.client_id, "c");
}

#[test]
fn ping_of_a_removed_session_is_ignored() {
    let mut state = state();
    let action = handle_client_message(&mut state, "gone", TunnelMessage::Ping { timestamp: 1 }, 2);
    assert!(matches!(action, ReaderAction::Ignored));
    assert_eq!(state.client_count(), 0);
}

#[test]
fn error_with_request_goes_to_the_waiter() {
    let mut state = state();
    let (slot, mut waiter) = oneshot::channel();
    state.pending_requests.insert("r-1".to_string(), slot);
    let error = TunnelMessage::Error {
        request_id: Some("r-1".to_string()),
        code: "upstream_error".to_string(),
        message: "refused".to_string(),
    };
    match handle_client_message(&mut state, "c", error.clone(), 1) {
        ReaderAction::Deliver { slot, message } => {
            assert_eq!(message, error);
            assert!(slot.send(message).is_ok());
        }
        _ => panic!("the error was not to be delivered"),
    }
    assert_eq!(waiter.try_recv().unwrap(), error);
    assert_eq!(state.pending_requests.len(), 0);
}

#[test]
fn answer_for_a_caller_that_gave_up_comes_back_from_the_slot() {
    let mut state = state();
    let (slot, waiter) = oneshot::channel();
    drop(waiter);
    state.pending_requests.insert("r-1".to_string(), slot);
    let answer = response("r-1", 200, b"x");
    match handle_client_message(&mut state, "c", answer.clone(), 1) {
        ReaderAction::Deliver { slot, message } => assert_eq!(slot.send(message), Err(answer)),
        _ => panic!("the answer was not to be delivered"),
    }
    assert_eq!(state.pending_requests.len(), 0);
}

#[test]
fn other_messages_change_nothing() {
    let mut state = state();
    let (slot, _waiter) = oneshot::channel();
    state.pending_requests.insert("r-1".to_string(), slot);
    let nameless = TunnelMessage::Error {
        request_id: None,
        code: "invalid_message".to_string(),
        message: "x".to_string(),
    };
    assert!(matches!(handle_client_message(&mut state, "c", nameless, 1), ReaderAction::Ignored));
    let pong = TunnelMessage::Pong { timestamp: 1 };
    assert!(matches!(handle_client_message(&mut state, "c", pong, 1), ReaderAction::Ignored));
    let auth = TunnelMessage::Auth {
        client_id: "c".to_string(),
        timestamp: 1,
        signature: String::new(),
    };
    assert!(matches!(handle_client_message(&mut state, "c", auth, 1), ReaderAction::Violation));
    let welcome = TunnelMessage::AuthResponse { success: true, message: None };
    assert!(matches!(handle_client_message(&mut state, "c", welcome, 1), ReaderAction::Violation));
    assert_eq!(state.pending_requests.len(), 1);
}

#[test]
fn tunneled_request_carries_every_part() {
    assert_eq!(
        tunnel_request("r-7".to_string(), public_request()),
        TunnelMessage::HttpRequest {
            request_id: "r-7".to_string(),
            method: "POST".to_string(),
            path: "/api/alexa/smart_home".to_string(),
            query: Some("a=1".to_string()),
            headers: vec![("accept".to_string(), "*/*".to_string())],
            body: Some(b"{\"x\":1}".to_vec()),
            source_ip: Some("203.0.113.5".to_string()),
        }
    );
}

#[test]
fn slot_stays_only_where_the_queue_took_the_request() {
    for (outcome, dispatch, left) in [
        (Enqueued::Sent, Dispatch::Awaiting, 1),
        (Enqueued::Full, Dispatch::SendFailed, 0),
        (Enqueued::Closed, Dispatch::SendFailed, 0),
    ] {
        let mut state = state();
        let (slot, _waiter) = oneshot::channel();
        state.pending_requests.insert("r-1".to_string(), slot);
        assert_eq!(settle(&mut state, "r-1", outcome), dispatch);
        assert_eq!(state.pending_requests.len(), left);
    }
}

#[test]
fn offer_names_the_request_and_files_its_slot() {
    let mut state = state();
    let (tx, mut queue) = mpsc::channel(OUTBOUND_CAPACITY);
    register_client(&mut state, "c".to_string(), tx, 1000);
    let (slot, _waiter) = oneshot::channel();
    match forward_request(&mut state, "r-5".to_string(), slot, public_request()) {
        Offer::Send { queue: handle, message } => {
            assert_eq!(message, tunnel_request("r-5".to_string(), public_request()));
            assert!(queue.try_recv().is_err());
            handle.try_send(message).unwrap();
            assert!(queue.try_recv().is_ok());
        }
        Offer::NoClient => panic!("a client is registered"),
    }
    assert!(state.pending_requests.contains_key("r-5"));
}

#[test]
fn each_answer_goes_to_the_slot_of_its_own_request() {
    let mut state = state();
    let (first_slot, mut first_waiter) = oneshot::channel();
    let (second_slot, mut second_waiter) = oneshot::channel();
    state.pending_requests.insert("r-1".to_string(), first_slot);
    state.pending_requests.insert("r-2".to_string(), second_slot);
    for id in ["r-2", "r-1"] {
        match handle_client_message(&mut state, "c", response(id, 200, id.as_bytes()), 1) {
            ReaderAction::Deliver { slot, message } => slot.send(message).unwrap(),
            _ => panic!("the answer was not to be delivered"),
        }
    }
    assert_eq!(first_waiter.try_recv().unwrap(), response("r-1", 200, b"r-1"));
    assert_eq!(second_waiter.try_recv().unwrap(), response("r-2", 200, b"r-2"));
}

#[test]
fn ping_is_answered_on_the_queue_of_its_own_session() {
    let mut state = state();
    let (a_tx, mut a_queue) = mpsc::channel(OUTBOUND_CAPACITY);
    let (b_tx, mut b_queue) = mpsc::channel(OUTBOUND_CAPACITY);
    register_client(&mut state, "a".to_string(), a_tx, 1000);
    register_client(&mut state, "b".to_string(), b_tx, 1000);
    for (client, stamp) in [("b", 7), ("a", 8)] {
        match handle_client_message(&mut state, client, TunnelMessage::Ping { timestamp: stamp }, 1001) {
            ReaderAction::Reply { queue, message } => queue.try_send(message).unwrap(),
            _ => panic!("the ping was not answered"),
        }
    }
    assert_eq!(a_queue.try_recv().unwrap(), TunnelMessage::Pong { timestamp: 8 });
    assert!(a_queue.try_recv().is_err());
    assert_eq!(b_queue.try_recv().unwrap(), TunnelMessage::Pong { timestamp: 7 });
    assert!(b_queue.try_recv().is_err());
}
