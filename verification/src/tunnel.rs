//! The messages that travel over the control connection, and the signature
//! that authenticates a client.

use crate::error::ProxyError;
use crate::text::{decimal, decimal_string};
use hmac::{Hmac, Mac};
use sha2::Sha256;
use vstd::prelude::*;
use vstd::string::StringSliceAdditionalSpecFns;
use vstd::utf8::encode_utf8;

verus! {

/// An ordered list of header fields, each a name and a value.
pub type Headers = Vec<(String, String)>;

/// One message of the tunnel protocol.
#[derive(Clone, Debug, PartialEq, Eq)]
#[allow(inconsistent_fields)]
pub enum TunnelMessage {
    /// The first message of a client: who it is, when it signed, and the
    /// signature over both.
    Auth { client_id: String, timestamp: u64, signature: String },
    /// The server's answer to `Auth`.
    AuthResponse { success: bool, message: Option<String> },
    /// A public HTTP request, forwarded to the client.
    HttpRequest {
        request_id: String,
        method: String,
        path: String,
        query: Option<String>,
        headers: Headers,
        body: Option<Vec<u8>>,
        source_ip: Option<String>,
    },
    /// The upstream's answer to the request with the same `request_id`.
    HttpResponse { request_id: String, status: u16, headers: Headers, body: Option<Vec<u8>> },
    /// A failure, for one request where `request_id` is given.
    Error { request_id: Option<String>, code: String, message: String },
    /// Heartbeat probe.
    Ping { timestamp: u64 },
    /// Heartbeat answer; carries the timestamp of the probe.
    Pong { timestamp: u64 },
}

/// The mathematical value of a [`TunnelMessage`].
#[allow(inconsistent_fields)]
pub enum MessageView {
    Auth { client_id: Seq<char>, timestamp: u64, signature: Seq<char> },
    AuthResponse { success: bool, message: Option<Seq<char>> },
    HttpRequest {
        request_id: Seq<char>,
        method: Seq<char>,
        path: Seq<char>,
        query: Option<Seq<char>>,
        headers: Seq<(Seq<char>, Seq<char>)>,
        body: Option<Seq<u8>>,
        source_ip: Option<Seq<char>>,
    },
    HttpResponse {
        request_id: Seq<char>,
        status: u16,
        headers: Seq<(Seq<char>, Seq<char>)>,
        body: Option<Seq<u8>>,
    },
    Error { request_id: Option<Seq<char>>, code: Seq<char>, message: Seq<char> },
    Ping { timestamp: u64 },
    Pong { timestamp: u64 },
}

impl View for TunnelMessage {
    type V = MessageView;

    open spec fn view(&self) -> MessageView {
        match self {
            TunnelMessage::Auth { client_id, timestamp, signature } => MessageView::Auth {
                client_id: client_id@,
                timestamp: *timestamp,
                signature: signature@,
            },
            TunnelMessage::AuthResponse { success, message } => MessageView::AuthResponse {
                success: *success,
                message: message.deep_view(),
            },
            TunnelMessage::HttpRequest {
                request_id,
                method,
                path,
                query,
                headers,
                body,
                source_ip,
            } => MessageView::HttpRequest {
                request_id: request_id@,
                method: method@,
                path: path@,
                query: query.deep_view(),
                headers: headers.deep_view(),
                body: body.deep_view(),
                source_ip: source_ip.deep_view(),
            },
            TunnelMessage::HttpResponse { request_id, status, headers, body } => {
                MessageView::HttpResponse {
                    request_id: request_id@,
                    status: *status,
                    headers: headers.deep_view(),
                    body: body.deep_view(),
                }
            },
            TunnelMessage::Error { request_id, code, message } => MessageView::Error {
                request_id: request_id.deep_view(),
                code: code@,
                message: message@,
            },
            TunnelMessage::Ping { timestamp } => MessageView::Ping { timestamp: *timestamp },
            TunnelMessage::Pong { timestamp } => MessageView::Pong { timestamp: *timestamp },
        }
    }
}

impl MessageView {
    /// The request that the message answers, where it names one.
    pub open spec fn answers(self) -> Option<Seq<char>> {
        match self {
            MessageView::HttpResponse { request_id, .. } => Some(request_id),
            MessageView::Error { request_id, .. } => request_id,
            _ => None,
        }
    }
}

/// One frame of the control connection, as the transport hands it over. A
/// data frame carries the message that its JSON payload decoded to, or the
/// decoder's complaint where it did not decode.
#[derive(Debug, PartialEq, Eq)]
pub enum WsMessage {
    Text(Result<TunnelMessage, String>),
    Binary(Result<TunnelMessage, String>),
    Ping,
    Pong,
    Close,
    Other,
}

/// What a frame yields: the message of a data frame that decoded, and a
/// tunnel error for every other frame.
pub open spec fn frame_outcome(frame: WsMessage) -> Result<MessageView, crate::error::ProxyErrorView> {
    match frame {
        WsMessage::Text(Ok(m)) | WsMessage::Binary(Ok(m)) => Ok(m@),
        WsMessage::Text(Err(e)) | WsMessage::Binary(Err(e)) => Err(
            crate::error::ProxyErrorView::Tunnel(e@),
        ),
        WsMessage::Ping | WsMessage::Pong => Err(
            crate::error::ProxyErrorView::Tunnel("Unexpected ping/pong"@),
        ),
        WsMessage::Close => Err(crate::error::ProxyErrorView::Tunnel("Connection closed"@)),
        WsMessage::Other => Err(crate::error::ProxyErrorView::Tunnel("Unknown message type"@)),
    }
}

impl TunnelMessage {
    /// Takes the tunnel message out of a frame. Text and binary frames are
    /// both accepted; transport-level pings, pongs and closes are errors here.
    pub fn from_ws_message(msg: WsMessage) -> (r: Result<TunnelMessage, ProxyError>)
        ensures
            match frame_outcome(msg) {
                Ok(m) => r is Ok && r->Ok_0@ == m,
                Err(e) => r is Err && r->Err_0@ == e,
            },
    {
        match msg {
            WsMessage::Text(Ok(m)) => Ok(m),
            WsMessage::Binary(Ok(m)) => Ok(m),
            WsMessage::Text(Err(e)) => Err(ProxyError::Tunnel(e)),
            WsMessage::Binary(Err(e)) => Err(ProxyError::Tunnel(e)),
            WsMessage::Ping => Err(ProxyError::Tunnel(String::from_str("Unexpected ping/pong"))),
            WsMessage::Pong => Err(ProxyError::Tunnel(String::from_str("Unexpected ping/pong"))),
            WsMessage::Close => Err(ProxyError::Tunnel(String::from_str("Connection closed"))),
            WsMessage::Other => Err(ProxyError::Tunnel(String::from_str("Unknown message type"))),
        }
    }
}

/// What a reader does after it has taken a frame off the connection.
#[derive(Debug, PartialEq, Eq)]
pub enum ReaderStep {
    /// The frame carried a message.
    Handle(TunnelMessage),
    /// The frame is passed over: its payload did not decode, or it is none
    /// of the protocol's business.
    Skip,
    /// The connection is over.
    Stop,
}

/// The step that a frame calls for. `None` stands for the end of the
/// stream or a failure of the transport.
pub open spec fn step_fits(step: ReaderStep, frame: Option<WsMessage>) -> bool {
    match frame {
        None | Some(WsMessage::Close) => step is Stop,
        Some(WsMessage::Text(Ok(m))) | Some(WsMessage::Binary(Ok(m))) => step matches ReaderStep::Handle(
            h,
        ) && h@ == m@,
        _ => step is Skip,
    }
}

/// Decides how a reader goes on after a frame. A frame that does not decode
/// is passed over: it does not end the connection.
pub fn next_step(frame: Option<WsMessage>) -> (step: ReaderStep)
    ensures
        step_fits(step, frame),
{
    match frame {
        None => ReaderStep::Stop,
        Some(WsMessage::Close) => ReaderStep::Stop,
        Some(WsMessage::Text(Ok(m))) => ReaderStep::Handle(m),
        Some(WsMessage::Binary(Ok(m))) => ReaderStep::Handle(m),
        _ => ReaderStep::Skip,
    }
}

/// The HMAC-SHA256 of `message` under `key`.
pub uninterp spec fn hmac_sha256(key: Seq<u8>, message: Seq<u8>) -> Seq<u8>;

/// The character of a hexadecimal digit, in lower case.
pub open spec fn hex_digit(n: u8) -> char {
    if n < 10 {
        (0x30 + n) as char
    } else {
        (0x57 + n) as char
    }
}

/// Two lower-case hexadecimal digits for every byte, high digit first.
pub open spec fn hex_encode(bytes: Seq<u8>) -> Seq<char> {
    Seq::new(
        2 * bytes.len(),
        |i: int|
            if i % 2 == 0 {
                hex_digit(bytes[i / 2] / 16)
            } else {
                hex_digit(bytes[i / 2] % 16)
            },
    )
}

/// The text that a client signs: its identifier, a colon, and the timestamp
/// in decimal.
pub open spec fn signed_text(client_id: Seq<char>, timestamp: u64) -> Seq<char> {
    client_id + seq![':'] + decimal(timestamp as nat)
}

/// The signature that authenticates `client_id` at `timestamp` under `secret`.
pub open spec fn auth_signature(client_id: Seq<char>, timestamp: u64, secret: Seq<char>) -> Seq<
    char,
> {
    hex_encode(hmac_sha256(encode_utf8(secret), encode_utf8(signed_text(client_id, timestamp))))
}

/// Computes an HMAC-SHA256 with the `hmac` and `sha2` crates: `Hmac::<Sha256>`
/// keyed by `new_from_slice`, fed by one `update`, closed by `finalize`. The
/// result is taken to be a function of key and message alone, and has the
/// thirty-two bytes of a SHA-256 digest. `new_from_slice` accepts a key of
/// any length (its HMAC implementation returns `Ok` always), so the `expect`
/// cannot fail.
#[verifier::external_body]
fn hmac_sha256_bytes(key: &[u8], message: &[u8]) -> (mac: Vec<u8>)
    ensures
        mac@ == hmac_sha256(key@, message@),
        mac@.len() == 32,
{
    let mut mac = Hmac::<Sha256>::new_from_slice(key).expect("HMAC can take key of any size");
    mac.update(message);
    mac.finalize().into_bytes().to_vec()
}

/// The one-character text of a hexadecimal digit.
fn hex_digit_text(n: u8) -> (s: &'static str)
    requires
        n < 16,
    ensures
        s@ == seq![hex_digit(n)],
{
    proof {
        reveal_strlit("0");
        reveal_strlit("1");
        reveal_strlit("2");
        reveal_strlit("3");
        reveal_strlit("4");
        reveal_strlit("5");
        reveal_strlit("6");
        reveal_strlit("7");
        reveal_strlit("8");
        reveal_strlit("9");
        reveal_strlit("a");
        reveal_strlit("b");
        reveal_strlit("c");
        reveal_strlit("d");
        reveal_strlit("e");
        reveal_strlit("f");
    }
    let s = if n == 0 {
        "0"
    } else if n == 1 {
        "1"
    } else if n == 2 {
        "2"
    } else if n == 3 {
        "3"
    } else if n == 4 {
        "4"
    } else if n == 5 {
        "5"
    } else if n == 6 {
        "6"
    } else if n == 7 {
        "7"
    } else if n == 8 {
        "8"
    } else if n == 9 {
        "9"
    } else if n == 10 {
        "a"
    } else if n == 11 {
        "b"
    } else if n == 12 {
        "c"
    } else if n == 13 {
        "d"
    } else if n == 14 {
        "e"
    } else {
        "f"
    };
    assert(s@ =~= seq![hex_digit(n)]);
    s
}

/// Writes bytes in hexadecimal: two characters of `0123456789abcdef` for
/// every byte, the high four bits first.
pub fn hex_string(bytes: &Vec<u8>) -> (s: String)
    ensures
        s@ == hex_encode(bytes@),
{
    let mut s = String::new();
    let mut i: usize = 0;
    assert(s@ =~= hex_encode(bytes@.take(0)));
    while i < bytes.len()
        invariant
            i <= bytes.len(),
            s@ == hex_encode(bytes@.take(i as int)),
        decreases bytes.len() - i,
    {
        let b = bytes[i];
        let ghost before = s@;
        s.append(hex_digit_text(b / 16));
        s.append(hex_digit_text(b % 16));
        proof {
            let longer = hex_encode(bytes@.take(i + 1));
            assert(s@ == before + seq![hex_digit(b / 16)] + seq![hex_digit(b % 16)]);
            assert(s@.len() == longer.len());
            assert forall|k: int| 0 <= k < longer.len() implies s@[k] == longer[k] by {
                if k < 2 * i {
                    assert(bytes@.take(i + 1)[k / 2] == bytes@.take(i as int)[k / 2]);
                    assert(s@[k] == before[k]);
                } else {
                    assert(k / 2 == i);
                    assert(bytes@.take(i + 1)[k / 2] == b);
                }
            }
            assert(s@ =~= longer);
        }
        i = i + 1;
    }
    assert(bytes@.take(i as int) =~= bytes@);
    s
}

/// Signs `client_id` and `timestamp` with the shared `secret`. The
/// signature has sixty-four characters.
pub fn generate_auth_signature(client_id: &str, timestamp: u64, secret: &str) -> (signature: String)
    ensures
        signature@ == auth_signature(client_id@, timestamp, secret@),
        signature@.len() == 64,
{
    proof {
        reveal_strlit(":");
    }
    let stamp = decimal_string(timestamp);
    let message = String::from_str(client_id).concat(":").concat(stamp.as_str());
    assert(message@ =~= signed_text(client_id@, timestamp));
    let mac = hmac_sha256_bytes(secret.as_bytes(), message.as_str().as_bytes());
    hex_string(&mac)
}

} // verus!
