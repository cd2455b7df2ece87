//! Sessions, pending requests, and the path of a public request through the
//! tunnel.
//!
//! The server keeps two tables: the index of the sessions, one for every
//! authenticated control connection, and the table of pending requests, one
//! slot for every public request that waits for its answer. Every function
//! here takes the state by exclusive reference and says how it changes both.

use crate::server::auth::{signature_accepted, verify_auth_signature_at};
use crate::server::config::Config;
use crate::text::{ascii_lower, eq_ignore_ascii_case};
use crate::tunnel::{Headers, MessageView, TunnelMessage, WsMessage};
use dashmap::DashMap;
use std::collections::hash_map::RandomState;
use tokio::sync::mpsc;
use tokio::sync::oneshot;
use uuid::Uuid;
use vstd::prelude::*;
use vstd::string::StrSliceExecFns;

verus! {

/// `dashmap::DashMap`, of which the verifier sees nothing but the name.
#[verifier::external_type_specification]
#[verifier::external_body]
#[verifier::reject_recursive_types(K)]
#[verifier::reject_recursive_types(V)]
#[verifier::reject_recursive_types(S)]
pub struct ExDashMap<K, V, S>(DashMap<K, V, S>);

/// `tokio::sync::mpsc::Sender`, of which the verifier sees nothing but the
/// name.
#[verifier::external_type_specification]
#[verifier::external_body]
#[verifier::reject_recursive_types(T)]
pub struct ExQueueSender<T>(mpsc::Sender<T>);

/// `tokio::sync::oneshot::Sender`, of which the verifier sees nothing but
/// the name.
#[verifier::external_type_specification]
#[verifier::external_body]
#[verifier::reject_recursive_types(T)]
pub struct ExSlotSender<T>(oneshot::Sender<T>);

/// The sending half of a session's outbound queue.
pub type Outbound = mpsc::Sender<TunnelMessage>;

/// The slot of a pending request: whoever holds it can hand the waiting
/// caller one message.
pub type Slot = oneshot::Sender<TunnelMessage>;

/// Seconds within which a new connection has to authenticate.
pub const AUTH_TIMEOUT_SECS: u64 = 10;

/// How many messages the outbound queue of a session holds at most.
pub const OUTBOUND_CAPACITY: usize = 100;

/// The largest request body, in bytes, that is passed on.
pub const MAX_BODY_BYTES: usize = 10485760;

/// One authenticated control connection.
pub struct ClientConnection {
    /// The identity that the client claimed when it authenticated.
    pub client_id: String,
    /// The number under which the session was registered. Sessions of one
    /// identifier are told apart by it.
    pub session: u64,
    /// When the session was registered, in seconds since the epoch.
    pub connected_at: u64,
    /// When the client last sent a ping.
    pub last_ping: u64,
    /// Where messages for the client are queued.
    pub sender: Outbound,
}

/// The queue that a sending half feeds. Two halves feed the same queue
/// where one is a further handle of the other.
pub uninterp spec fn queue_of(sender: mpsc::Sender<TunnelMessage>) -> int;

/// The caller that waits at the other end of a slot.
pub uninterp spec fn waiter_of(slot: oneshot::Sender<TunnelMessage>) -> int;

/// What the index holds of a session: every field of it, the queue by the
/// queue that its sending half feeds.
pub struct SessionRecord {
    pub client_id: Seq<char>,
    pub session: u64,
    pub connected_at: u64,
    pub last_ping: u64,
    pub queue: int,
}

/// The record of a session.
pub open spec fn record_of(connection: ClientConnection) -> SessionRecord {
    SessionRecord {
        client_id: connection.client_id@,
        session: connection.session,
        connected_at: connection.connected_at,
        last_ping: connection.last_ping,
        queue: queue_of(connection.sender),
    }
}

/// The sessions that an index holds: each key with the record of the
/// session that is stored under it.
pub uninterp spec fn session_records(index: DashMap<String, ClientConnection, RandomState>) -> Map<
    Seq<char>,
    SessionRecord,
>;

/// The slots that a table holds: each key with the caller that waits at the
/// other end of the slot that is stored under it.
pub uninterp spec fn pending_slots(table: DashMap<String, Slot, RandomState>) -> Map<
    Seq<char>,
    int,
>;

/// The empty set of sessions.
pub open spec fn no_sessions() -> Map<Seq<char>, SessionRecord> {
    Map::empty()
}

/// The empty table of slots.
pub open spec fn no_slots() -> Map<Seq<char>, int> {
    Map::empty()
}

/// `DashMap::new`: an index without sessions.
#[verifier::external_body]
fn index_new() -> (index: DashMap<String, ClientConnection>)
    ensures
        session_records(index) == no_sessions(),
{
    DashMap::new()
}

/// `DashMap::insert`: stores the session under the key. A session that was
/// there under the same key is dropped.
#[verifier::external_body]
fn index_insert(index: &mut DashMap<String, ClientConnection>, key: String, session: ClientConnection)
    ensures
        session_records(*final(index)) == session_records(*old(index)).insert(
            key@,
            record_of(session),
        ),
{
    index.insert(key, session);
}

/// `DashMap::remove`: takes the session that is stored under the key out of
/// the index, where there is one, and hands it over.
#[verifier::external_body]
fn index_remove(index: &mut DashMap<String, ClientConnection>, key: &str) -> (session: Option<
    ClientConnection,
>)
    ensures
        session_records(*final(index)) == session_records(*old(index)).remove(key@),
        session is Some <==> session_records(*old(index)).contains_key(key@),
        session matches Some(s) ==> record_of(s) == session_records(*old(index))[key@],
{
    index.remove(key).map(|entry| entry.1)
}

/// Whether `n` is the number of the sessions, of which there are finitely
/// many.
pub open spec fn counts(sessions: Map<Seq<char>, SessionRecord>, n: usize) -> bool {
    sessions.dom().finite() && n == sessions.dom().len()
}

/// `DashMap::len`: the number of sessions.
#[verifier::external_body]
fn index_len(index: &DashMap<String, ClientConnection>) -> (n: usize)
    ensures
        counts(session_records(*index), n),
{
    index.len()
}

/// The first entry of `DashMap::iter`: the key of one of the sessions, with
/// a further handle on the queue of the session under that key, or nothing
/// where the index is empty. Which session comes first is up to the map.
#[verifier::external_body]
fn index_first(index: &DashMap<String, ClientConnection>) -> (first: Option<(String, Outbound)>)
    ensures
        first is None <==> session_records(*index).dom() =~= Set::<Seq<char>>::empty(),
        first matches Some(entry) ==> session_records(*index).contains_key(entry.0@) && queue_of(
            entry.1,
        ) == session_records(*index)[entry.0@].queue,
{
    index.iter().next().map(|entry| (entry.key().clone(), entry.value().sender.clone()))
}

/// `DashMap::new`: a table without slots.
#[verifier::external_body]
fn table_new() -> (table: DashMap<String, Slot>)
    ensures
        pending_slots(table) == no_slots(),
{
    DashMap::new()
}

/// `DashMap::insert`: files the slot under the request's identifier. A slot
/// that was there under the same identifier is dropped.
#[verifier::external_body]
fn table_insert(table: &mut DashMap<String, Slot>, request_id: String, slot: Slot)
    ensures
        pending_slots(*final(table)) == pending_slots(*old(table)).insert(
            request_id@,
            waiter_of(slot),
        ),
{
    table.insert(request_id, slot);
}

/// `DashMap::remove`: takes the slot that is filed under the request's
/// identifier out of the table, where there is one, and hands it over.
#[verifier::external_body]
fn table_remove(table: &mut DashMap<String, Slot>, request_id: &str) -> (slot: Option<Slot>)
    ensures
        pending_slots(*final(table)) == pending_slots(*old(table)).remove(request_id@),
        slot is Some <==> pending_slots(*old(table)).contains_key(request_id@),
        slot matches Some(found) ==> waiter_of(found) == pending_slots(*old(table))[request_id@],
{
    table.remove(request_id).map(|entry| entry.1)
}

/// What became of a message that was offered to an outbound queue.
#[derive(Clone, Copy, Debug, PartialEq, Eq, Structural)]
pub enum Enqueued {
    /// The message is in the queue.
    Sent,
    /// The queue holds as many messages as it can.
    Full,
    /// The writer of the session is gone.
    Closed,
}

/// `Clone::clone` of `mpsc::Sender`: a further handle, which feeds the same
/// queue.
#[verifier::external_body]
fn another_handle(queue: &Outbound) -> (handle: Outbound)
    ensures
        queue_of(handle) == queue_of(*queue),
{
    queue.clone()
}

/// `Uuid::new_v4`, written out as text: a random identifier. Two calls give
/// different identifiers for all practical purposes, which is nothing that a
/// contract can state.
#[verifier::external_body]
fn fresh_id() -> (id: String) {
    Uuid::new_v4().to_string()
}

/// What the server holds while it runs.
pub struct ServerState {
    /// The settings that the server was started with.
    pub config: Config,
    /// The sessions, by client identifier.
    pub clients: DashMap<String, ClientConnection>,
    /// The slots of the requests that wait for an answer, by request
    /// identifier.
    pub pending_requests: DashMap<String, Slot>,
    /// The number that the next session is registered under.
    pub next_session: u64,
}

/// The number that follows `n` in the count of the sessions; after the
/// largest number the count begins anew.
pub open spec fn following(n: u64) -> u64 {
    if n == u64::MAX {
        0
    } else {
        (n + 1) as u64
    }
}

impl ServerState {
    /// The sessions: each client identifier with the record of its session.
    pub open spec fn sessions(&self) -> Map<Seq<char>, SessionRecord> {
        session_records(self.clients)
    }

    /// The slots: each identifier of a request that waits for an answer,
    /// with the caller that waits for it.
    pub open spec fn slots(&self) -> Map<Seq<char>, int> {
        pending_slots(self.pending_requests)
    }

    /// The identifiers of the requests that wait for an answer.
    pub open spec fn pending(&self) -> Set<Seq<char>> {
        self.slots().dom()
    }

    /// A server without sessions and without pending requests.
    pub fn new(config: Config) -> (state: ServerState)
        ensures
            state.config == config,
            state.sessions() == no_sessions(),
            state.slots() == no_slots(),
            state.pending() == Set::<Seq<char>>::empty(),
            state.next_session == 0,
    {
        let state = ServerState {
            config,
            clients: index_new(),
            pending_requests: table_new(),
            next_session: 0,
        };
        assert(state.pending() =~= Set::<Seq<char>>::empty());
        state
    }

    /// The number of sessions.
    pub fn client_count(&self) -> (n: usize)
        ensures
            counts(self.sessions(), n),
    {
        index_len(&self.clients)
    }
}

/// Enters the session of a client that has authenticated at time `now`, and
/// returns the number of the session and the number of sessions. A session
/// of the same identifier that was in the index is replaced: the latest
/// registration is the one that the index holds.
pub fn register_client(state: &mut ServerState, client_id: String, sender: Outbound, now: u64) -> (r: (
    u64,
    usize,
))
    ensures
        r.0 == old(state).next_session,
        final(state).next_session == following(old(state).next_session),
        final(state).sessions() == old(state).sessions().insert(
            client_id@,
            (SessionRecord {
                client_id: client_id@,
                session: r.0,
                connected_at: now,
                last_ping: now,
                queue: queue_of(sender),
            }),
        ),
        final(state).slots() == old(state).slots(),
        final(state).config == old(state).config,
        counts(final(state).sessions(), r.1),
        r.1 >= 1,
{
    let session = state.next_session;
    state.next_session = if session == u64::MAX {
        0
    } else {
        session + 1
    };
    let connection = ClientConnection {
        client_id: client_id.clone(),
        session,
        connected_at: now,
        last_ping: now,
        sender,
    };
    index_insert(&mut state.clients, client_id, connection);
    let count = index_len(&state.clients);
    proof {
        assert(state.sessions().dom().contains(client_id@));
        if count == 0 {
            assert(state.sessions().dom() =~= Set::<Seq<char>>::empty()) by {
                state.sessions().dom().lemma_len0_is_empty();
            }
        }
    }
    (session, count)
}

/// The sessions after the session `session` of `client_id` has ended: its
/// entry is gone where the index still holds it, and nothing changes where
/// the identifier is unknown or belongs to another session by now.
pub open spec fn sessions_without(
    sessions: Map<Seq<char>, SessionRecord>,
    client_id: Seq<char>,
    session: u64,
) -> Map<Seq<char>, SessionRecord> {
    if sessions.contains_key(client_id) && sessions[client_id].session == session {
        sessions.remove(client_id)
    } else {
        sessions
    }
}

/// Takes the session `session` of a client out of the index when its
/// connection ends. A newer session of the same identifier stays.
pub fn remove_client(state: &mut ServerState, client_id: &str, session: u64)
    ensures
        final(state).sessions() == sessions_without(old(state).sessions(), client_id@, session),
        final(state).slots() == old(state).slots(),
        final(state).config == old(state).config,
        final(state).next_session == old(state).next_session,
{
    match index_remove(&mut state.clients, client_id) {
        Some(found) => {
            if found.session != session {
                index_insert(&mut state.clients, String::from_str(client_id), found);
                proof {
                    assert(state.sessions() =~= old(state).sessions());
                }
            }
        },
        None => {
            proof {
                assert(state.sessions() =~= old(state).sessions());
            }
        },
    }
}

/// A session that ends does not take a newer session of the same identifier
/// with it: after two registrations under one identifier, the end of the
/// first leaves the second in the index.
pub proof fn lemma_newer_session_survives(
    sessions: Map<Seq<char>, SessionRecord>,
    client_id: Seq<char>,
    older: SessionRecord,
    newer: SessionRecord,
)
    requires
        newer.session == following(older.session),
    ensures
        ({
            let both = sessions.insert(client_id, older).insert(client_id, newer);
            sessions_without(both, client_id, older.session) == both && both[client_id] == newer
        }),
{
}

/// What the reader of a session does with a message, once the tables are
/// brought up to date.
pub enum ReaderAction {
    /// The message is to be handed to the caller that waits on the slot.
    Deliver { slot: Slot, message: TunnelMessage },
    /// No request waits for this message.
    Orphan,
    /// The message is to be queued to the client.
    Reply { queue: Outbound, message: TunnelMessage },
    /// The message asks for nothing.
    Ignored,
    /// The message has no business on an authenticated session.
    Violation,
}

/// The slots after the reader has seen `msg`: the request that the message
/// answers has lost its slot.
pub open spec fn slots_after(slots: Map<Seq<char>, int>, msg: MessageView) -> Map<Seq<char>, int> {
    match msg.answers() {
        Some(id) => slots.remove(id),
        None => slots,
    }
}

/// The pending requests after the reader has seen `msg`: the request that
/// the message answers waits no longer.
pub open spec fn pending_after(pending: Set<Seq<char>>, msg: MessageView) -> Set<Seq<char>> {
    match msg.answers() {
        Some(id) => pending.remove(id),
        None => pending,
    }
}

/// The sessions after the reader of `client_id` has seen `msg` at time
/// `now`: a ping renews the session, where it still exists. Nothing else of
/// the session changes.
pub open spec fn sessions_after(
    sessions: Map<Seq<char>, SessionRecord>,
    client_id: Seq<char>,
    msg: MessageView,
    now: u64,
) -> Map<Seq<char>, SessionRecord> {
    if msg is Ping && sessions.contains_key(client_id) {
        sessions.insert(
            client_id,
            SessionRecord {
                client_id: sessions[client_id].client_id,
                session: sessions[client_id].session,
                connected_at: sessions[client_id].connected_at,
                last_ping: now,
                queue: sessions[client_id].queue,
            },
        )
    } else {
        sessions
    }
}

/// Whether `action` is what the reader owes for `msg`: an answer goes,
/// unchanged, to the caller that waits on the slot of its request; a ping is
/// answered, on the queue of the session that sent it, by a pong with the
/// same timestamp.
pub open spec fn action_fits(
    action: ReaderAction,
    slots: Map<Seq<char>, int>,
    sessions: Map<Seq<char>, SessionRecord>,
    client_id: Seq<char>,
    msg: MessageView,
) -> bool {
    match msg {
        MessageView::HttpResponse { .. } | MessageView::Error { .. } => match msg.answers() {
            Some(id) => if slots.contains_key(id) {
                action matches ReaderAction::Deliver { slot, message } && message@ == msg
                    && waiter_of(slot) == slots[id]
            } else {
                action is Orphan
            },
            None => action is Ignored,
        },
        MessageView::Ping { timestamp } => if sessions.contains_key(client_id) {
            action matches ReaderAction::Reply { queue, message } && message@ == (
            MessageView::Pong { timestamp }) && queue_of(queue) == sessions[client_id].queue
        } else {
            action is Ignored
        },
        MessageView::Pong { .. } => action is Ignored,
        _ => action is Violation,
    }
}

/// Takes the slot of a request out of the table, for the answer `msg`.
fn correlate(state: &mut ServerState, request_id: &str, msg: TunnelMessage) -> (action: ReaderAction)
    ensures
        final(state).slots() == old(state).slots().remove(request_id@),
        final(state).clients == old(state).clients,
        final(state).config == old(state).config,
        final(state).next_session == old(state).next_session,
        if old(state).slots().contains_key(request_id@) {
            action matches ReaderAction::Deliver { slot, message } && message == msg && waiter_of(
                slot,
            ) == old(state).slots()[request_id@]
        } else {
            action is Orphan
        },
{
    match table_remove(&mut state.pending_requests, request_id) {
        Some(slot) => ReaderAction::Deliver { slot, message: msg },
        None => ReaderAction::Orphan,
    }
}

/// Takes one message that the client `client_id` sent at time `now`.
///
/// An answer (a response, or an error that names its request) is to go to
/// the caller that waits for it: the slot that is filed under the request is
/// taken out of the table and handed back with the message, which is the one
/// that came. A ping renews the session and is answered by a pong with the
/// same timestamp, on the queue of that session.
pub fn handle_client_message(state: &mut ServerState, client_id: &str, msg: TunnelMessage, now: u64) -> (action:
    ReaderAction)
    ensures
        final(state).slots() == slots_after(old(state).slots(), msg@),
        final(state).pending() == pending_after(old(state).pending(), msg@),
        final(state).sessions() == sessions_after(old(state).sessions(), client_id@, msg@, now),
        final(state).config == old(state).config,
        final(state).next_session == old(state).next_session,
        action_fits(action, old(state).slots(), old(state).sessions(), client_id@, msg@),
{
    match msg {
        TunnelMessage::HttpResponse { request_id, status, headers, body } => {
            let id = request_id.clone();
            correlate(
                state,
                id.as_str(),
                TunnelMessage::HttpResponse { request_id, status, headers, body },
            )
        },
        TunnelMessage::Error { request_id, code, message } => {
            match request_id {
                Some(request_id) => {
                    let id = request_id.clone();
                    correlate(
                        state,
                        id.as_str(),
                        TunnelMessage::Error { request_id: Some(request_id), code, message },
                    )
                },
                None => ReaderAction::Ignored,
            }
        },
        TunnelMessage::Ping { timestamp } => {
            match index_remove(&mut state.clients, client_id) {
                Some(found) => {
                    let queue = another_handle(&found.sender);
                    let renewed = ClientConnection {
                        client_id: found.client_id,
                        session: found.session,
                        connected_at: found.connected_at,
                        last_ping: now,
                        sender: found.sender,
                    };
                    index_insert(&mut state.clients, String::from_str(client_id), renewed);
                    proof {
                        assert(state.sessions() =~= sessions_after(
                            old(state).sessions(),
                            client_id@,
                            msg@,
                            now,
                        ));
                    }
                    ReaderAction::Reply { queue, message: TunnelMessage::Pong { timestamp } }
                },
                None => {
                    proof {
                        assert(state.sessions() =~= old(state).sessions());
                    }
                    ReaderAction::Ignored
                },
            }
        },
        TunnelMessage::Pong { .. } => ReaderAction::Ignored,
        _ => ReaderAction::Violation,
    }
}

/// The message that a frame carries, where it carries one.
pub open spec fn frame_message(frame: Option<WsMessage>) -> Option<MessageView> {
    match frame {
        Some(WsMessage::Text(Ok(m))) | Some(WsMessage::Binary(Ok(m))) => Some(m@),
        _ => None,
    }
}

/// The server's answer to a client that has authenticated.
pub open spec fn welcome() -> MessageView {
    MessageView::AuthResponse { success: true, message: None }
}

/// The server's answer to a client whose signature it does not accept.
pub open spec fn refusal() -> MessageView {
    MessageView::AuthResponse { success: false, message: Some("Invalid signature"@) }
}

/// How the server treats a connection after its first frame.
pub enum AuthVerdict {
    /// The client is who it claims to be: `reply` is sent, and the session
    /// is registered under `client_id`.
    Accepted { client_id: String, reply: TunnelMessage },
    /// The signature is not accepted: `reply` is sent, and the connection is
    /// closed.
    Rejected { reply: TunnelMessage },
    /// The first frame was no authentication message, or none came in time:
    /// the connection is closed without a word.
    Silent,
}

/// Whether `verdict` is the one that the first frame calls for at `now`.
pub open spec fn verdict_fits(
    verdict: AuthVerdict,
    first: Option<MessageView>,
    now: u64,
    secret: Seq<char>,
) -> bool {
    match first {
        Some(MessageView::Auth { client_id, timestamp, signature }) => {
            if signature_accepted(now, client_id, timestamp, signature, secret) {
                verdict matches AuthVerdict::Accepted { client_id: id, reply } && id@ == client_id
                    && reply@ == welcome()
            } else {
                verdict matches AuthVerdict::Rejected { reply } && reply@ == refusal()
            }
        },
        _ => verdict is Silent,
    }
}

/// Judges the first frame of a connection at time `now`. `first` is `None`
/// where no frame came before the deadline.
pub fn authenticate(first: Option<WsMessage>, now: u64, secret: &str) -> (verdict: AuthVerdict)
    ensures
        verdict_fits(verdict, frame_message(first), now, secret@),
{
    let message = match first {
        Some(WsMessage::Text(Ok(m))) => m,
        Some(WsMessage::Binary(Ok(m))) => m,
        _ => {
            return AuthVerdict::Silent;
        },
    };
    match message {
        TunnelMessage::Auth { client_id, timestamp, signature } => {
            if verify_auth_signature_at(
                now,
                client_id.as_str(),
                timestamp,
                signature.as_str(),
                secret,
            ) {
                AuthVerdict::Accepted {
                    client_id,
                    reply: TunnelMessage::AuthResponse { success: true, message: None },
                }
            } else {
                AuthVerdict::Rejected {
                    reply: TunnelMessage::AuthResponse {
                        success: false,
                        message: Some(String::from_str("Invalid signature")),
                    },
                }
            }
        },
        _ => AuthVerdict::Silent,
    }
}

/// A client is welcomed only with the signature that the secret gives for
/// its identifier and timestamp, and only within the allowed clock skew.
pub proof fn lemma_accepted_means_signed(
    verdict: AuthVerdict,
    first: Option<MessageView>,
    now: u64,
    secret: Seq<char>,
)
    requires
        verdict_fits(verdict, first, now, secret),
        verdict is Accepted,
    ensures
        first matches Some(MessageView::Auth { client_id, timestamp, signature })
            && signature == crate::tunnel::auth_signature(client_id, timestamp, secret)
            && crate::server::auth::within_skew(now, timestamp),
{
}

/// A public request, as the tunnel carries it.
pub struct PublicRequest {
    pub method: String,
    pub path: String,
    pub query: Option<String>,
    pub headers: Headers,
    pub body: Option<Vec<u8>>,
    pub source_ip: String,
}

/// The answer to a public request.
#[derive(Debug, PartialEq, Eq)]
pub struct PublicResponse {
    pub status: u16,
    pub headers: Headers,
    pub body: Vec<u8>,
}

/// The mathematical value of a [`PublicResponse`].
pub struct ResponseView {
    pub status: u16,
    pub headers: Seq<(Seq<char>, Seq<char>)>,
    pub body: Seq<u8>,
}

impl View for PublicResponse {
    type V = ResponseView;

    open spec fn view(&self) -> ResponseView {
        ResponseView {
            status: self.status,
            headers: self.headers.deep_view(),
            body: self.body@,
        }
    }
}

/// A response without headers whose body is the given text.
pub open spec fn plain(status: u16, text: Seq<char>) -> ResponseView {
    ResponseView { status, headers: seq![], body: vstd::utf8::encode_utf8(text) }
}

/// Builds a response without headers whose body is the given text.
fn text_response(status: u16, text: &str) -> (response: PublicResponse)
    ensures
        response@ == plain(status, text@),
{
    let response = PublicResponse { status, headers: Vec::new(), body: text.as_bytes_vec() };
    assert(response.headers.deep_view() =~= seq![]);
    response
}

/// The body of a public request as it is passed on: the bytes that were
/// read, unless there are none or more than `MAX_BODY_BYTES`.
pub open spec fn capped_body(bytes: Seq<u8>) -> Option<Seq<u8>> {
    if 0 < bytes.len() <= MAX_BODY_BYTES {
        Some(bytes)
    } else {
        None
    }
}

/// Decides whether the body of a public request is passed on.
pub fn request_body(bytes: Vec<u8>) -> (body: Option<Vec<u8>>)
    ensures
        body.deep_view() == capped_body(bytes@),
{
    if bytes.len() == 0 || bytes.len() > MAX_BODY_BYTES {
        None
    } else {
        Some(bytes)
    }
}

/// How far a public request got on its way to a client.
#[derive(Clone, Copy, Debug, PartialEq, Eq, Structural)]
pub enum Dispatch {
    /// No session is registered.
    NoClient,
    /// The queue of the chosen session did not take the request.
    SendFailed,
    /// The request is queued, and its slot waits for the answer.
    Awaiting,
}

/// The message that carries a public request to a client.
pub open spec fn request_message(request_id: Seq<char>, request: PublicRequest) -> MessageView {
    MessageView::HttpRequest {
        request_id,
        method: request.method@,
        path: request.path@,
        query: request.query.deep_view(),
        headers: request.headers.deep_view(),
        body: request.body.deep_view(),
        source_ip: Some(request.source_ip@),
    }
}

/// Builds the message that carries a public request to a client.
pub fn tunnel_request(request_id: String, request: PublicRequest) -> (message: TunnelMessage)
    ensures
        message@ == request_message(request_id@, request),
{
    TunnelMessage::HttpRequest {
        request_id,
        method: request.method,
        path: request.path,
        query: request.query,
        headers: request.headers,
        body: request.body,
        source_ip: Some(request.source_ip),
    }
}

/// How far a request got whose message was offered to a queue: it waits for
/// its answer where the queue took the message, and has failed where the
/// queue was full or closed.
pub open spec fn dispatch_of(outcome: Enqueued) -> Dispatch {
    if outcome == Enqueued::Sent {
        Dispatch::Awaiting
    } else {
        Dispatch::SendFailed
    }
}

/// Settles the request `request_id`, whose slot is filed, after its message
/// was offered to a queue: the slot stays where the queue took the message,
/// and is taken out again where it did not.
pub fn settle(state: &mut ServerState, request_id: &str, outcome: Enqueued) -> (dispatch: Dispatch)
    ensures
        dispatch == dispatch_of(outcome),
        final(state).sessions() == old(state).sessions(),
        final(state).config == old(state).config,
        final(state).next_session == old(state).next_session,
        final(state).slots() == (if outcome == Enqueued::Sent {
            old(state).slots()
        } else {
            old(state).slots().remove(request_id@)
        }),
        outcome != Enqueued::Sent ==> !final(state).pending().contains(request_id@),
{
    match outcome {
        Enqueued::Sent => Dispatch::Awaiting,
        _ => {
            let _ = table_remove(&mut state.pending_requests, request_id);
            Dispatch::SendFailed
        },
    }
}

/// What is to be done about a public request.
pub enum Offer {
    /// No session is registered: the request goes nowhere.
    NoClient,
    /// The slot of the request is filed, and `message` is to be offered to
    /// `queue` without waiting. What follows from the queue's answer,
    /// `settle` says.
    Send { queue: Outbound, message: TunnelMessage },
}

/// Whether `offer` is what a public request calls for: nothing where no
/// session is registered, and else the message of the request, for the queue
/// of one of the sessions.
pub open spec fn offer_fits(
    offer: Offer,
    sessions: Map<Seq<char>, SessionRecord>,
    request_id: Seq<char>,
    request: PublicRequest,
) -> bool {
    if sessions.dom() =~= Set::<Seq<char>>::empty() {
        offer is NoClient
    } else {
        offer matches Offer::Send { queue, message } && message@ == request_message(
            request_id,
            request,
        ) && exists|client_id: Seq<char>| #[trigger]
            sessions.contains_key(client_id) && sessions[client_id].queue == queue_of(queue)
    }
}

/// Prepares a public request, under the identifier `request_id`, for one of
/// the clients: the slot is filed under the identifier, and the message of
/// the request is handed back with the queue of the chosen session. Where no
/// session is registered nothing is filed.
pub fn forward_request(
    state: &mut ServerState,
    request_id: String,
    slot: Slot,
    request: PublicRequest,
) -> (offer: Offer)
    ensures
        offer_fits(offer, old(state).sessions(), request_id@, request),
        final(state).sessions() == old(state).sessions(),
        final(state).config == old(state).config,
        final(state).next_session == old(state).next_session,
        final(state).slots() == (if offer is NoClient {
            old(state).slots()
        } else {
            old(state).slots().insert(request_id@, waiter_of(slot))
        }),
{
    let queue = match index_first(&state.clients) {
        Some(entry) => {
            assert(state.sessions().dom().contains(entry.0@));
            entry.1
        },
        None => {
            return Offer::NoClient;
        },
    };
    let id = request_id.clone();
    table_insert(&mut state.pending_requests, request_id, slot);
    Offer::Send { queue, message: tunnel_request(id, request) }
}

/// Prepares a public request for one of the clients under a fresh
/// identifier, which is returned with what is to be done.
pub fn dispatch_request(state: &mut ServerState, slot: Slot, request: PublicRequest) -> (r: (
    String,
    Offer,
))
    ensures
        offer_fits(r.1, old(state).sessions(), r.0@, request),
        final(state).sessions() == old(state).sessions(),
        final(state).config == old(state).config,
        final(state).next_session == old(state).next_session,
        final(state).slots() == (if r.1 is NoClient {
            old(state).slots()
        } else {
            old(state).slots().insert(r.0@, waiter_of(slot))
        }),
{
    let request_id = fresh_id();
    let offer = forward_request(state, request_id.clone(), slot, request);
    (request_id, offer)
}

/// How the wait for an answer ended.
pub enum Awaited {
    /// A message came through the slot.
    Message(TunnelMessage),
    /// The slot was dropped without a message.
    Closed,
    /// No message came in time.
    TimedOut,
}

/// The mathematical value of an [`Awaited`].
pub enum AwaitedView {
    Message(MessageView),
    Closed,
    TimedOut,
}

impl View for Awaited {
    type V = AwaitedView;

    open spec fn view(&self) -> AwaitedView {
        match self {
            Awaited::Message(m) => AwaitedView::Message(m@),
            Awaited::Closed => AwaitedView::Closed,
            Awaited::TimedOut => AwaitedView::TimedOut,
        }
    }
}

/// Whether a header name, in lower case, is one of those that concern a
/// single hop and are not passed on.
pub open spec fn hop_by_hop(lower: Seq<char>) -> bool {
    ||| lower == "content-length"@
    ||| lower == "transfer-encoding"@
    ||| lower == "connection"@
    ||| lower == "keep-alive"@
    ||| lower == "te"@
    ||| lower == "trailers"@
    ||| lower == "upgrade"@
}

/// Tells whether a header concerns a single hop. Header names are ASCII,
/// and the case of their letters does not count.
pub fn is_hop_by_hop_header(name: &str) -> (yes: bool)
    ensures
        yes == hop_by_hop(ascii_lower(name@)),
{
    eq_ignore_ascii_case(name, "content-length") || eq_ignore_ascii_case(
        name,
        "transfer-encoding",
    ) || eq_ignore_ascii_case(name, "connection") || eq_ignore_ascii_case(name, "keep-alive")
        || eq_ignore_ascii_case(name, "te") || eq_ignore_ascii_case(name, "trailers")
        || eq_ignore_ascii_case(name, "upgrade")
}

/// The headers of a tunneled response that reach the public caller: all but
/// the hop-by-hop ones, in order. The case of ASCII letters in a name does
/// not count.
pub open spec fn passed_headers(headers: Seq<(Seq<char>, Seq<char>)>) -> Seq<
    (Seq<char>, Seq<char>),
>
    decreases headers.len(),
{
    if headers.len() == 0 {
        seq![]
    } else {
        let rest = passed_headers(headers.drop_last());
        if hop_by_hop(ascii_lower(headers.last().0)) {
            rest
        } else {
            rest.push(headers.last())
        }
    }
}

/// Drops the hop-by-hop headers of a tunneled response.
pub fn response_headers(headers: &Headers) -> (passed: Headers)
    ensures
        passed.deep_view() == passed_headers(headers.deep_view()),
{
    let mut passed: Headers = Vec::new();
    let mut i: usize = 0;
    let ghost all = headers.deep_view();
    assert(all.take(0) =~= Seq::empty());
    assert(passed.deep_view() =~= Seq::empty());
    while i < headers.len()
        invariant
            i <= headers.len(),
            all == headers.deep_view(),
            all.len() == headers.len(),
            passed.deep_view() == passed_headers(all.take(i as int)),
        decreases headers.len() - i,
    {
        let ghost before = passed.deep_view();
        proof {
            assert(all.take(i + 1).drop_last() =~= all.take(i as int));
            assert(all.take(i + 1).last() == all[i as int]);
            assert(all[i as int] == (headers@[i as int].0@, headers@[i as int].1@));
        }
        if !is_hop_by_hop_header(headers[i].0.as_str()) {
            passed.push((headers[i].0.clone(), headers[i].1.clone()));
            assert(passed.deep_view() =~= before.push(all[i as int]));
        }
        i = i + 1;
    }
    assert(all.take(i as int) =~= all);
    passed
}

/// The status under which a tunneled response is passed on: its own where
/// that is a three-digit number, and 500 otherwise.
pub open spec fn public_status(status: u16) -> u16 {
    if 100 <= status <= 999 {
        status
    } else {
        500
    }
}

/// The response that a public caller gets for the message that came
/// through its slot.
pub open spec fn answer(msg: MessageView) -> ResponseView {
    match msg {
        MessageView::HttpResponse { status, headers, body, .. } => ResponseView {
            status: public_status(status),
            headers: passed_headers(headers),
            body: match body {
                Some(bytes) => bytes,
                None => seq![],
            },
        },
        MessageView::Error { message, .. } => plain(403, message),
        _ => plain(500, "Unexpected response"@),
    }
}

/// The response that a public caller gets after the wait for an answer.
pub open spec fn outcome(awaited: AwaitedView) -> ResponseView {
    match awaited {
        AwaitedView::Message(msg) => answer(msg),
        AwaitedView::Closed => plain(500, "Response channel closed"@),
        AwaitedView::TimedOut => plain(504, "Request timeout"@),
    }
}

/// Ends the wait of the public request `request_id` and builds its
/// response. Where no message came, the slot of the request is taken out of
/// the table before the caller is answered, so that a late answer finds
/// nothing to go to.
pub fn conclude(state: &mut ServerState, request_id: &str, awaited: Awaited) -> (response:
    PublicResponse)
    ensures
        response@ == outcome(awaited@),
        final(state).sessions() == old(state).sessions(),
        final(state).config == old(state).config,
        final(state).next_session == old(state).next_session,
        final(state).slots() == (if awaited is Message {
            old(state).slots()
        } else {
            old(state).slots().remove(request_id@)
        }),
        !(awaited is Message) ==> !final(state).pending().contains(request_id@),
{
    match awaited {
        Awaited::Message(TunnelMessage::HttpResponse { status, headers, body, .. }) => {
            let passed = response_headers(&headers);
            let status = if 100 <= status && status <= 999 {
                status
            } else {
                500
            };
            let body = match body {
                Some(bytes) => {
                    assert(bytes@ =~= bytes.deep_view());
                    bytes
                },
                None => Vec::new(),
            };
            PublicResponse { status, headers: passed, body }
        },
        Awaited::Message(TunnelMessage::Error { message, .. }) => text_response(
            403,
            message.as_str(),
        ),
        Awaited::Message(_) => text_response(500, "Unexpected response"),
        Awaited::Closed => {
            let _ = table_remove(&mut state.pending_requests, request_id);
            text_response(500, "Response channel closed")
        },
        Awaited::TimedOut => {
            let _ = table_remove(&mut state.pending_requests, request_id);
            text_response(504, "Request timeout")
        },
    }
}

/// The response to a public request that was never queued, and nothing for
/// one that was. `waited` tells whether the caller had been kept waiting for
/// a client to connect.
pub open spec fn turned_away(dispatch: Dispatch, waited: bool) -> Option<ResponseView> {
    match dispatch {
        Dispatch::NoClient => Some(
            plain(
                503,
                if waited {
                    "No connected clients (timeout waiting for client)"@
                } else {
                    "No connected clients"@
                },
            ),
        ),
        Dispatch::SendFailed => Some(plain(502, "Failed to forward request"@)),
        Dispatch::Awaiting => None,
    }
}

/// Builds the response to a public request that was never queued.
pub fn turn_away(dispatch: Dispatch, waited: bool) -> (response: Option<PublicResponse>)
    ensures
        match turned_away(dispatch, waited) {
            Some(r) => response is Some && response->0@ == r,
            None => response is None,
        },
{
    match dispatch {
        Dispatch::NoClient => {
            if waited {
                Some(text_response(503, "No connected clients (timeout waiting for client)"))
            } else {
                Some(text_response(503, "No connected clients"))
            }
        },
        Dispatch::SendFailed => Some(text_response(502, "Failed to forward request")),
        Dispatch::Awaiting => None,
    }
}

/// The status of the public response, for every way in which a request can
/// end: turned away, or concluded after a wait.
pub open spec fn final_status(dispatch: Dispatch, waited: bool, awaited: AwaitedView) -> u16 {
    match turned_away(dispatch, waited) {
        Some(r) => r.status,
        None => outcome(awaited).status,
    }
}

/// A public caller gets a status below 500 only where its request was
/// queued to a client and a response or an error came back through its slot.
pub proof fn lemma_success_needs_exchange(dispatch: Dispatch, waited: bool, awaited: AwaitedView)
    requires
        final_status(dispatch, waited, awaited) < 500,
    ensures
        dispatch == Dispatch::Awaiting,
        awaited matches AwaitedView::Message(msg) && (msg is HttpResponse || msg is Error),
{
}

/// A request whose message was offered to a queue ends below 500 only where
/// the queue took the message: a request that was not sent is never answered
/// as if it had been.
pub proof fn lemma_success_needs_sending(outcome: Enqueued, waited: bool, awaited: AwaitedView)
    requires
        final_status(dispatch_of(outcome), waited, awaited) < 500,
    ensures
        outcome == Enqueued::Sent,
{
}

/// Once an answer has gone to its caller, or the wait has ended without
/// one, the request has no slot: a second answer to it finds nothing to go
/// to, and the reader owes it nothing but to drop it.
pub proof fn lemma_second_answer_is_orphan(
    slots: Map<Seq<char>, int>,
    sessions: Map<Seq<char>, SessionRecord>,
    client_id: Seq<char>,
    msg: MessageView,
    action: ReaderAction,
)
    requires
        msg.answers() is Some,
        action_fits(action, slots_after(slots, msg), sessions, client_id, msg),
    ensures
        action is Orphan,
{
}

/// An answer reaches the caller of its own request: the slot that the
/// reader hands back for a message is the one that was filed under the
/// identifier that the message names.
pub proof fn lemma_answer_reaches_its_caller(
    slots: Map<Seq<char>, int>,
    sessions: Map<Seq<char>, SessionRecord>,
    client_id: Seq<char>,
    request_id: Seq<char>,
    waiter: int,
    msg: MessageView,
    action: ReaderAction,
)
    requires
        msg.answers() == Some(request_id),
        action_fits(action, slots.insert(request_id, waiter), sessions, client_id, msg),
    ensures
        action matches ReaderAction::Deliver { slot, message } && waiter_of(slot) == waiter
            && message@ == msg,
{
}

/// No hop-by-hop header is among the headers that are passed on.
pub proof fn lemma_hop_by_hop_stripped(headers: Seq<(Seq<char>, Seq<char>)>)
    ensures
        forall|i: int|
            0 <= i < passed_headers(headers).len() ==> !hop_by_hop(
                ascii_lower((#[trigger] passed_headers(headers)[i]).0),
            ),
    decreases headers.len(),
{
    if headers.len() > 0 {
        lemma_hop_by_hop_stripped(headers.drop_last());
        let rest = passed_headers(headers.drop_last());
        assert forall|i: int| 0 <= i < passed_headers(headers).len() implies !hop_by_hop(
            ascii_lower((#[trigger] passed_headers(headers)[i]).0),
        ) by {
            if i < rest.len() {
                assert(passed_headers(headers)[i] == rest[i]);
            }
        }
    }
}

/// Every header that is not hop-by-hop is passed on, and nothing is passed
/// on that was not there.
pub proof fn lemma_other_headers_kept(headers: Seq<(Seq<char>, Seq<char>)>, h: (Seq<char>, Seq<char>))
    ensures
        passed_headers(headers).contains(h) <==> headers.contains(h) && !hop_by_hop(
            ascii_lower(h.0),
        ),
    decreases headers.len(),
{
    if headers.len() > 0 {
        let front = headers.drop_last();
        let last = headers.last();
        lemma_other_headers_kept(front, h);
        let rest = passed_headers(front);
        if headers.contains(h) {
            let i = choose|i: int| 0 <= i < headers.len() && headers[i] == h;
            if i < headers.len() - 1 {
                assert(front[i] == h);
            }
        }
        if front.contains(h) {
            let i = choose|i: int| 0 <= i < front.len() && front[i] == h;
            assert(headers[i] == h);
        }
        assert(headers[headers.len() - 1] == last);
        if !hop_by_hop(ascii_lower(last.0)) {
            let all = rest.push(last);
            assert(all[all.len() - 1] == last);
            if rest.contains(h) {
                let i = choose|i: int| 0 <= i < rest.len() && rest[i] == h;
                assert(all[i] == h);
            }
            if all.contains(h) {
                let i = choose|i: int| 0 <= i < all.len() && all[i] == h;
                if i < rest.len() {
                    assert(rest[i] == h);
                }
            }
        }
    }
}

/// What the health endpoint reports: `ok` where a client is connected, and
/// the number of clients.
pub fn health_check(state: &ServerState) -> (report: (&'static str, usize))
    ensures
        counts(state.sessions(), report.1),
        report.0@ == (if report.1 > 0 {
            "ok"@
        } else {
            "no_clients"@
        }),
{
    let clients = state.client_count();
    if clients > 0 {
        ("ok", clients)
    } else {
        ("no_clients", clients)
    }
}

} // verus!
