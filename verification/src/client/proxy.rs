//! What the client does with the messages that the server sends.
//!
//! A request is answered on the spot where it is not allowed or where it is
//! the first step of a login, which the browser has to take at Home
//! Assistant itself; every other request is made out to Home Assistant, and
//! its outcome becomes the answer.

use crate::client::config::{Config, Features};
use crate::error::{ProxyError, ProxyErrorView};
use crate::text::{str_eq, trim_end_matches, without_trailing, CharClass};
use crate::tunnel::{Headers, MessageView, TunnelMessage};
use vstd::prelude::*;
use vstd::string::StrSliceExecFns;
use vstd::utf8::encode_utf8;

verus! {

/// Whether a request is one that the enabled assistants need.
pub open spec fn request_allowed(features: Features, method: Seq<char>, path: Seq<char>) -> bool {
    ||| features.assistant_alexa && method == "POST"@ && path == "/api/alexa/smart_home"@
    ||| features.assistant_google && method == "POST"@ && path == "/api/google_assistant"@
    ||| (features.assistant_google || features.assistant_alexa) && method == "GET"@ && path
        == "/auth/authorize"@
    ||| (features.assistant_google || features.assistant_alexa) && method == "POST"@ && path
        == "/auth/token"@
}

/// Decides whether a request is passed on to Home Assistant at all.
pub fn validate_request(features: &Features, method: &str, path: &str) -> (allowed: bool)
    ensures
        allowed == request_allowed(*features, method@, path@),
{
    let post = str_eq(method, "POST");
    let get = str_eq(method, "GET");
    let either = features.assistant_google || features.assistant_alexa;
    (features.assistant_alexa && post && str_eq(path, "/api/alexa/smart_home")) || (
    features.assistant_google && post && str_eq(path, "/api/google_assistant")) || (either && get
        && str_eq(path, "/auth/authorize")) || (either && post && str_eq(path, "/auth/token"))
}

/// The methods under which a request can be made out to Home Assistant.
#[derive(Clone, Copy, Debug, PartialEq, Eq, Structural)]
pub enum Method {
    Get,
    Post,
    Put,
    Delete,
    Patch,
}

/// The method of the given name.
pub open spec fn method_named(name: Seq<char>) -> Option<Method> {
    if name == "GET"@ {
        Some(Method::Get)
    } else if name == "POST"@ {
        Some(Method::Post)
    } else if name == "PUT"@ {
        Some(Method::Put)
    } else if name == "DELETE"@ {
        Some(Method::Delete)
    } else if name == "PATCH"@ {
        Some(Method::Patch)
    } else {
        None
    }
}

/// Reads a method from its name, which is in capitals.
pub fn parse_method(name: &str) -> (method: Option<Method>)
    ensures
        method == method_named(name@),
{
    if str_eq(name, "GET") {
        Some(Method::Get)
    } else if str_eq(name, "POST") {
        Some(Method::Post)
    } else if str_eq(name, "PUT") {
        Some(Method::Put)
    } else if str_eq(name, "DELETE") {
        Some(Method::Delete)
    } else if str_eq(name, "PATCH") {
        Some(Method::Patch)
    } else {
        None
    }
}

/// A base URL without the slashes at its end.
pub open spec fn base_of(url: Seq<char>) -> Seq<char> {
    trim_end_matches(url, CharClass::Is('/'))
}

/// The URL at Home Assistant of a request: the base, the path, and the
/// query behind a question mark where there is one.
pub open spec fn upstream_url(ha_server: Seq<char>, path: Seq<char>, query: Option<Seq<char>>) -> Seq<
    char,
> {
    base_of(ha_server) + path + (match query {
        Some(q) => "?"@ + q,
        None => Seq::<char>::empty(),
    })
}

/// The URL that a browser is sent to for a login: the external base, the
/// path, a question mark, and the query where there is one.
pub open spec fn redirect_url(external: Seq<char>, path: Seq<char>, query: Option<Seq<char>>) -> Seq<
    char,
> {
    base_of(external) + path + "?"@ + (match query {
        Some(q) => q,
        None => Seq::<char>::empty(),
    })
}

/// The headers of the request to Home Assistant: those of the public
/// request and, where the caller's address is known and is to be passed on,
/// one more that holds it.
pub open spec fn upstream_headers(
    headers: Seq<(Seq<char>, Seq<char>)>,
    source_ip: Option<Seq<char>>,
    pass_client_ip: bool,
) -> Seq<(Seq<char>, Seq<char>)> {
    match source_ip {
        Some(ip) => if pass_client_ip {
            headers.push(("x-forwarded-for"@, ip))
        } else {
            headers
        },
        None => headers,
    }
}

/// A request to Home Assistant.
#[derive(Debug, PartialEq, Eq)]
pub struct UpstreamRequest {
    pub method: Method,
    pub url: String,
    pub headers: Headers,
    pub body: Option<Vec<u8>>,
}

/// The answer of Home Assistant.
#[derive(Debug, PartialEq, Eq)]
pub struct UpstreamResponse {
    pub status: u16,
    pub headers: Headers,
    pub body: Option<Vec<u8>>,
}

/// The error for a method under which no request is made out.
pub open spec fn unsupported(method: Seq<char>) -> ProxyErrorView {
    ProxyErrorView::InvalidRequest("Unsupported method: "@ + method)
}

/// Makes out the request to Home Assistant for a public request. A method
/// other than `GET`, `POST`, `PUT`, `DELETE` or `PATCH` is an error.
pub fn proxy_request(
    config: &Config,
    method: &str,
    path: &str,
    query: Option<String>,
    headers: Headers,
    body: Option<Vec<u8>>,
    source_ip: Option<String>,
) -> (r: Result<UpstreamRequest, ProxyError>)
    ensures
        match method_named(method@) {
            Some(m) => r matches Ok(request) && request.method == m && request.url@
                == upstream_url(config.ha_server@, path@, query.deep_view())
                && request.headers.deep_view() == upstream_headers(
                headers.deep_view(),
                source_ip.deep_view(),
                config.ha_pass_client_ip,
            ) && request.body == body,
            None => r matches Err(e) && e@ == unsupported(method@),
        },
{
    let parsed = match parse_method(method) {
        Some(m) => m,
        None => {
            return Err(
                ProxyError::InvalidRequest(String::from_str("Unsupported method: ").concat(method)),
            );
        },
    };
    let mut url = without_trailing(config.ha_server.as_str(), CharClass::Is('/')).concat(path);
    match query {
        Some(q) => {
            url = url.concat("?").concat(q.as_str());
        },
        None => {
            assert(url@ =~= url@ + Seq::<char>::empty());
        },
    }
    let mut headers = headers;
    let ghost given = headers.deep_view();
    match source_ip {
        Some(ip) => {
            if config.ha_pass_client_ip {
                headers.push((String::from_str("x-forwarded-for"), ip));
                assert(headers.deep_view() =~= given.push(("x-forwarded-for"@, ip@)));
            }
        },
        None => {},
    }
    Ok(UpstreamRequest { method: parsed, url, headers, body })
}

/// What is to be done about a message from the server.
#[derive(Debug, PartialEq, Eq)]
pub enum RequestPlan {
    /// The message is answered at once.
    Reply(TunnelMessage),
    /// The request goes to Home Assistant; its outcome is the answer to
    /// `request_id`.
    Forward { request_id: String, request: UpstreamRequest },
    /// The message asks for nothing.
    Discard,
}

/// The answer to a request that no enabled assistant needs.
pub open spec fn not_enabled(request_id: Seq<char>) -> MessageView {
    MessageView::HttpResponse {
        request_id,
        status: 400,
        headers: Seq::empty(),
        body: Some(encode_utf8("Feature not enabled!"@)),
    }
}

/// The answer that sends a browser to Home Assistant for a login.
pub open spec fn redirect(request_id: Seq<char>, location: Seq<char>) -> MessageView {
    MessageView::HttpResponse {
        request_id,
        status: 307,
        headers: seq![("Location"@, location)],
        body: None,
    }
}

/// Whether `plan` is what the request calls for: a refusal where it is not
/// allowed, a redirection for the first step of a login, and else the
/// request to Home Assistant.
pub open spec fn plan_fits(
    plan: RequestPlan,
    config: Config,
    request_id: Seq<char>,
    method: Seq<char>,
    path: Seq<char>,
    query: Option<Seq<char>>,
    headers: Seq<(Seq<char>, Seq<char>)>,
    body: Option<Vec<u8>>,
    source_ip: Option<Seq<char>>,
) -> bool {
    if !request_allowed(config.features, method, path) {
        plan matches RequestPlan::Reply(m) && m@ == not_enabled(request_id)
    } else if method == "GET"@ && path == "/auth/authorize"@ {
        plan matches RequestPlan::Reply(m) && m@ == redirect(
            request_id,
            redirect_url(config.ha_external_url@, path, query),
        )
    } else {
        plan matches RequestPlan::Forward { request_id: id, request } && id@ == request_id
            && method_named(method) == Some(request.method) && request.url@ == upstream_url(
            config.ha_server@,
            path,
            query,
        ) && request.headers.deep_view() == upstream_headers(
            headers,
            source_ip,
            config.ha_pass_client_ip,
        ) && request.body == body
    }
}

/// The code of the error message that reports `e` to the server.
pub open spec fn error_code(e: ProxyErrorView) -> Seq<char> {
    if e is InvalidRequest {
        "invalid_request"@
    } else {
        "upstream_error"@
    }
}

/// The answer to `request_id` after the attempt at Home Assistant: its
/// response, or the error that kept it from coming.
pub open spec fn reply_of(request_id: Seq<char>, result: Result<UpstreamResponse, ProxyError>) -> MessageView {
    match result {
        Ok(response) => MessageView::HttpResponse {
            request_id,
            status: response.status,
            headers: response.headers.deep_view(),
            body: response.body.deep_view(),
        },
        Err(e) => MessageView::Error {
            request_id: Some(request_id),
            code: error_code(e@),
            message: e@.text(),
        },
    }
}

/// Turns the outcome of a request to Home Assistant into the answer to the
/// server.
pub fn upstream_reply(request_id: String, result: Result<UpstreamResponse, ProxyError>) -> (reply:
    TunnelMessage)
    ensures
        reply@ == reply_of(request_id@, result),
{
    match result {
        Ok(response) => TunnelMessage::HttpResponse {
            request_id,
            status: response.status,
            headers: response.headers,
            body: response.body,
        },
        Err(e) => {
            let code = match &e {
                ProxyError::InvalidRequest(_) => String::from_str("invalid_request"),
                _ => String::from_str("upstream_error"),
            };
            TunnelMessage::Error { request_id: Some(request_id), code, message: e.message() }
        },
    }
}

/// Decides what to do about a public request that the server passed on.
pub fn handle_http_request(
    config: &Config,
    request_id: String,
    method: String,
    path: String,
    query: Option<String>,
    headers: Headers,
    body: Option<Vec<u8>>,
    source_ip: Option<String>,
) -> (plan: RequestPlan)
    ensures
        plan_fits(
            plan,
            *config,
            request_id@,
            method@,
            path@,
            query.deep_view(),
            headers.deep_view(),
            body,
            source_ip.deep_view(),
        ),
{
    if !validate_request(&config.features, method.as_str(), path.as_str()) {
        let fields: Headers = Vec::new();
        let bytes = "Feature not enabled!".as_bytes_vec();
        assert(fields.deep_view() =~= Seq::empty());
        assert(bytes.deep_view() =~= bytes@);
        let reply = TunnelMessage::HttpResponse {
            request_id,
            status: 400,
            headers: fields,
            body: Some(bytes),
        };
        RequestPlan::Reply(reply)
    } else if str_eq(method.as_str(), "GET") && str_eq(path.as_str(), "/auth/authorize") {
        let mut location = without_trailing(config.ha_external_url.as_str(), CharClass::Is('/')).concat(
            path.as_str(),
        ).concat("?");
        match query {
            Some(q) => {
                location = location.concat(q.as_str());
            },
            None => {
                assert(location@ =~= location@ + Seq::<char>::empty());
            },
        }
        let mut fields: Headers = Vec::new();
        fields.push((String::from_str("Location"), location));
        assert(fields.deep_view() =~= seq![("Location"@, location@)]);
        RequestPlan::Reply(
            TunnelMessage::HttpResponse { request_id, status: 307, headers: fields, body: None },
        )
    } else {
        match proxy_request(
            config,
            method.as_str(),
            path.as_str(),
            query,
            headers,
            body,
            source_ip,
        ) {
            Ok(request) => RequestPlan::Forward { request_id, request },
            Err(e) => RequestPlan::Reply(upstream_reply(request_id, Err(e))),
        }
    }
}

/// The answer to a message that is neither a request nor a pong.
pub open spec fn invalid_message() -> MessageView {
    MessageView::Error {
        request_id: None,
        code: "invalid_message"@,
        message: "Unexpected message type"@,
    }
}

/// Whether `plan` is what a message from the server calls for.
pub open spec fn message_plan_fits(plan: RequestPlan, config: Config, msg: TunnelMessage) -> bool {
    match msg {
        TunnelMessage::HttpRequest { request_id, method, path, query, headers, body, source_ip } => {
            plan_fits(
                plan,
                config,
                request_id@,
                method@,
                path@,
                query.deep_view(),
                headers.deep_view(),
                body,
                source_ip.deep_view(),
            )
        },
        TunnelMessage::Pong { .. } => plan is Discard,
        _ => plan matches RequestPlan::Reply(m) && m@ == invalid_message(),
    }
}

/// Decides what to do about a message from the server: a request is
/// handled, a pong is dropped, and everything else is answered by an error.
pub fn handle_request(config: &Config, msg: TunnelMessage) -> (plan: RequestPlan)
    ensures
        message_plan_fits(plan, *config, msg),
{
    match msg {
        TunnelMessage::HttpRequest { request_id, method, path, query, headers, body, source_ip } => {
            handle_http_request(config, request_id, method, path, query, headers, body, source_ip)
        },
        TunnelMessage::Pong { .. } => RequestPlan::Discard,
        _ => RequestPlan::Reply(
            TunnelMessage::Error {
                request_id: None,
                code: String::from_str("invalid_message"),
                message: String::from_str("Unexpected message type"),
            },
        ),
    }
}

} // verus!
