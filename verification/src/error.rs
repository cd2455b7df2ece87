//! The error type shared by both ends of the tunnel.

use vstd::prelude::*;

verus! {

/// What can go wrong on either end of the tunnel. Variants that stem from a
/// failure below the tunnel (I/O, JSON, the HTTP client) carry its description.
#[derive(Clone, Debug, PartialEq, Eq)]
pub enum ProxyError {
    Config(String),
    FilterDenied(String),
    Connection(String),
    Tunnel(String),
    Upstream(String),
    InvalidRequest(String),
    AuthFailed(String),
    RateLimited,
    Io(String),
    Json(String),
    Request(String),
}

/// The mathematical value of a [`ProxyError`].
pub enum ProxyErrorView {
    Config(Seq<char>),
    FilterDenied(Seq<char>),
    Connection(Seq<char>),
    Tunnel(Seq<char>),
    Upstream(Seq<char>),
    InvalidRequest(Seq<char>),
    AuthFailed(Seq<char>),
    RateLimited,
    Io(Seq<char>),
    Json(Seq<char>),
    Request(Seq<char>),
}

impl ProxyErrorView {
    /// The human-readable description of the error.
    pub open spec fn text(self) -> Seq<char> {
        match self {
            ProxyErrorView::Config(m) => "Configuration error: "@ + m,
            ProxyErrorView::FilterDenied(m) => "Filter denied request: "@ + m,
            ProxyErrorView::Connection(m) => "Connection error: "@ + m,
            ProxyErrorView::Tunnel(m) => "Tunnel error: "@ + m,
            ProxyErrorView::Upstream(m) => "Upstream error: "@ + m,
            ProxyErrorView::InvalidRequest(m) => "Invalid request: "@ + m,
            ProxyErrorView::AuthFailed(m) => "Authentication failed: "@ + m,
            ProxyErrorView::RateLimited => "Rate limited"@,
            ProxyErrorView::Io(m) => "IO error: "@ + m,
            ProxyErrorView::Json(m) => "JSON error: "@ + m,
            ProxyErrorView::Request(m) => "Request error: "@ + m,
        }
    }

    /// The HTTP status under which the error is reported to a caller.
    pub open spec fn status(self) -> u16 {
        match self {
            ProxyErrorView::FilterDenied(_) => 403,
            ProxyErrorView::AuthFailed(_) => 401,
            ProxyErrorView::RateLimited => 429,
            ProxyErrorView::InvalidRequest(_) => 400,
            _ => 500,
        }
    }

    /// The body of the HTTP response that reports the error: its description
    /// for the errors a caller may learn of, a fixed text for the others.
    pub open spec fn response_body(self) -> Seq<char> {
        if self.status() == 500 {
            "Internal error"@
        } else {
            self.text()
        }
    }
}

impl View for ProxyError {
    type V = ProxyErrorView;

    open spec fn view(&self) -> ProxyErrorView {
        match self {
            ProxyError::Config(m) => ProxyErrorView::Config(m@),
            ProxyError::FilterDenied(m) => ProxyErrorView::FilterDenied(m@),
            ProxyError::Connection(m) => ProxyErrorView::Connection(m@),
            ProxyError::Tunnel(m) => ProxyErrorView::Tunnel(m@),
            ProxyError::Upstream(m) => ProxyErrorView::Upstream(m@),
            ProxyError::InvalidRequest(m) => ProxyErrorView::InvalidRequest(m@),
            ProxyError::AuthFailed(m) => ProxyErrorView::AuthFailed(m@),
            ProxyError::RateLimited => ProxyErrorView::RateLimited,
            ProxyError::Io(m) => ProxyErrorView::Io(m@),
            ProxyError::Json(m) => ProxyErrorView::Json(m@),
            ProxyError::Request(m) => ProxyErrorView::Request(m@),
        }
    }
}

/// `prefix` followed by `detail`.
fn prefixed(prefix: &str, detail: &String) -> (s: String)
    ensures
        s@ == prefix@ + detail@,
{
    String::from_str(prefix).concat(detail.as_str())
}

impl ProxyError {
    /// The human-readable description of the error.
    pub fn message(&self) -> (s: String)
        ensures
            s@ == self@.text(),
    {
        match self {
            ProxyError::Config(m) => prefixed("Configuration error: ", m),
            ProxyError::FilterDenied(m) => prefixed("Filter denied request: ", m),
            ProxyError::Connection(m) => prefixed("Connection error: ", m),
            ProxyError::Tunnel(m) => prefixed("Tunnel error: ", m),
            ProxyError::Upstream(m) => prefixed("Upstream error: ", m),
            ProxyError::InvalidRequest(m) => prefixed("Invalid request: ", m),
            ProxyError::AuthFailed(m) => prefixed("Authentication failed: ", m),
            ProxyError::RateLimited => String::from_str("Rate limited"),
            ProxyError::Io(m) => prefixed("IO error: ", m),
            ProxyError::Json(m) => prefixed("JSON error: ", m),
            ProxyError::Request(m) => prefixed("Request error: ", m),
        }
    }

    /// The HTTP status and body under which the error is reported to a caller.
    pub fn to_response(&self) -> (r: (u16, String))
        ensures
            r.0 == self@.status(),
            r.1@ == self@.response_body(),
    {
        match self {
            ProxyError::FilterDenied(_) => (403, self.message()),
            ProxyError::AuthFailed(_) => (401, self.message()),
            ProxyError::RateLimited => (429, self.message()),
            ProxyError::InvalidRequest(_) => (400, self.message()),
            _ => (500, String::from_str("Internal error")),
        }
    }
}

} // verus!
