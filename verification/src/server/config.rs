//! Settings of the public server.

use crate::error::ProxyError;
use crate::server::client_ip::IpAddress;
use crate::text::{ascii_lower, str_eq};
use vstd::prelude::*;
use vstd::utf8::is_ascii_chars;

verus! {

/// Which request header, if any, names the real client behind a proxy.
#[derive(Clone, Debug, PartialEq, Eq)]
pub enum ProxyMode {
    /// No proxy: the address of the connection is the client's.
    Direct,
    /// `X-Forwarded-For`, a list whose leftmost entry is the client.
    XForwardedFor,
    /// `X-Real-IP`.
    XRealIp,
    /// `CF-Connecting-IP`.
    Cloudflare,
    /// `True-Client-IP`.
    TrueClientIp,
    /// `Forwarded`, as RFC 7239 defines it.
    Forwarded,
    /// A header of the given name that holds just the address.
    Custom(String),
}

/// The mathematical value of a [`ProxyMode`].
pub enum ProxyModeView {
    Direct,
    XForwardedFor,
    XRealIp,
    Cloudflare,
    TrueClientIp,
    Forwarded,
    Custom(Seq<char>),
}

impl View for ProxyMode {
    type V = ProxyModeView;

    open spec fn view(&self) -> ProxyModeView {
        match self {
            ProxyMode::Direct => ProxyModeView::Direct,
            ProxyMode::XForwardedFor => ProxyModeView::XForwardedFor,
            ProxyMode::XRealIp => ProxyModeView::XRealIp,
            ProxyMode::Cloudflare => ProxyModeView::Cloudflare,
            ProxyMode::TrueClientIp => ProxyModeView::TrueClientIp,
            ProxyMode::Forwarded => ProxyModeView::Forwarded,
            ProxyMode::Custom(name) => ProxyModeView::Custom(name@),
        }
    }
}

impl ProxyModeView {
    /// The name of the header that the mode reads.
    pub open spec fn header_name(self) -> Option<Seq<char>> {
        match self {
            ProxyModeView::Direct => None,
            ProxyModeView::XForwardedFor => Some("x-forwarded-for"@),
            ProxyModeView::XRealIp => Some("x-real-ip"@),
            ProxyModeView::Cloudflare => Some("cf-connecting-ip"@),
            ProxyModeView::TrueClientIp => Some("true-client-ip"@),
            ProxyModeView::Forwarded => Some("forwarded"@),
            ProxyModeView::Custom(name) => Some(name),
        }
    }
}

impl Default for ProxyMode {
    fn default() -> (mode: ProxyMode)
        ensures
            mode@ == ProxyModeView::Direct,
    {
        ProxyMode::Direct
    }
}

impl ProxyMode {
    /// The name of the header that the mode reads, in lower case for the
    /// built-in modes.
    pub fn header_name(&self) -> (name: Option<&str>)
        ensures
            name.deep_view() == self@.header_name(),
    {
        match self {
            ProxyMode::Direct => None,
            ProxyMode::XForwardedFor => Some("x-forwarded-for"),
            ProxyMode::XRealIp => Some("x-real-ip"),
            ProxyMode::Cloudflare => Some("cf-connecting-ip"),
            ProxyMode::TrueClientIp => Some("true-client-ip"),
            ProxyMode::Forwarded => Some("forwarded"),
            ProxyMode::Custom(name) => Some(name.as_str()),
        }
    }
}

/// The lower-case form of a text, by Unicode's rules.
pub uninterp spec fn to_lowercase(s: Seq<char>) -> Seq<char>;

/// `str::to_lowercase` of the standard library, whose result is a function of
/// the text alone. Of a text in ASCII the capitals `A` to `Z` become `a` to
/// `z`, and nothing else changes.
#[verifier::external_body]
fn lowercase(s: &str) -> (lower: String)
    ensures
        lower@ == to_lowercase(s@),
        is_ascii_chars(s@) ==> lower@ == ascii_lower(s@),
{
    s.to_lowercase()
}

/// The mode that a setting in lower case stands for. Every text that is not
/// one of the known names is the name of a custom header.
pub open spec fn mode_named(lower: Seq<char>) -> ProxyModeView {
    if lower == "none"@ || lower == ""@ {
        ProxyModeView::Direct
    } else if lower == "x-forwarded-for"@ || lower == "xforwardedfor"@ || lower == "xff"@ {
        ProxyModeView::XForwardedFor
    } else if lower == "x-real-ip"@ || lower == "xrealip"@ {
        ProxyModeView::XRealIp
    } else if lower == "cloudflare"@ || lower == "cf-connecting-ip"@ {
        ProxyModeView::Cloudflare
    } else if lower == "true-client-ip"@ || lower == "trueclientip"@ || lower == "akamai"@ {
        ProxyModeView::TrueClientIp
    } else if lower == "forwarded"@ || lower == "rfc7239"@ {
        ProxyModeView::Forwarded
    } else {
        ProxyModeView::Custom(lower)
    }
}

/// Reads a proxy mode from a setting that is already in lower case.
pub fn proxy_mode_named(lower: String) -> (mode: ProxyMode)
    ensures
        mode@ == mode_named(lower@),
{
    let s = lower.as_str();
    if str_eq(s, "none") || str_eq(s, "") {
        ProxyMode::Direct
    } else if str_eq(s, "x-forwarded-for") || str_eq(s, "xforwardedfor") || str_eq(s, "xff") {
        ProxyMode::XForwardedFor
    } else if str_eq(s, "x-real-ip") || str_eq(s, "xrealip") {
        ProxyMode::XRealIp
    } else if str_eq(s, "cloudflare") || str_eq(s, "cf-connecting-ip") {
        ProxyMode::Cloudflare
    } else if str_eq(s, "true-client-ip") || str_eq(s, "trueclientip") || str_eq(s, "akamai") {
        ProxyMode::TrueClientIp
    } else if str_eq(s, "forwarded") || str_eq(s, "rfc7239") {
        ProxyMode::Forwarded
    } else {
        ProxyMode::Custom(lower)
    }
}

/// Reads a proxy mode from a setting, whatever its case.
pub fn parse_proxy_mode(mode: &str) -> (parsed: ProxyMode)
    ensures
        parsed@ == mode_named(to_lowercase(mode@)),
        is_ascii_chars(mode@) ==> parsed@ == mode_named(ascii_lower(mode@)),
{
    proxy_mode_named(lowercase(mode))
}

/// The settings of the public server.
#[derive(Clone, Debug)]
pub struct Config {
    /// Address to listen on.
    pub host: String,
    /// Port to listen on.
    pub port: u16,
    /// The secret shared with the clients.
    pub secret: String,
    /// Seconds that a public request waits for a client to connect.
    pub client_timeout: u64,
    /// Seconds that a public request waits for its response.
    pub request_timeout: u64,
    /// Where the real client address is read from.
    pub proxy_mode: ProxyMode,
    /// The proxies whose headers are believed; all of them where empty.
    pub trusted_proxies: Vec<IpAddress>,
}

/// The server's settings as a configuration source yields them, before
/// they are checked. `None` stands for a setting that is not given.
#[derive(Clone, Debug)]
pub struct Settings {
    pub host: Option<String>,
    pub port: Option<i64>,
    pub secret: Option<String>,
    pub client_timeout: Option<i64>,
    pub request_timeout: Option<i64>,
    pub proxy_mode: Option<String>,
    pub trusted_proxies: Vec<IpAddress>,
}

/// Port that the server listens on where none is set.
pub const DEFAULT_PORT: i64 = 3000;

/// Seconds to wait for a client where none are set.
pub const DEFAULT_CLIENT_TIMEOUT: i64 = 10;

/// Seconds to wait for a response where none are set.
pub const DEFAULT_REQUEST_TIMEOUT: i64 = 30;

/// The value of a numeric setting, or its default.
pub open spec fn number_or(setting: Option<i64>, default: i64) -> i64 {
    match setting {
        Some(n) => n,
        None => default,
    }
}

/// Whether the settings make a configuration: the secret is given, the port
/// fits sixteen bits, and no timeout is negative.
pub open spec fn settings_valid(s: Settings) -> bool {
    &&& s.secret is Some
    &&& 0 <= number_or(s.port, DEFAULT_PORT) <= u16::MAX
    &&& 0 <= number_or(s.client_timeout, DEFAULT_CLIENT_TIMEOUT)
    &&& 0 <= number_or(s.request_timeout, DEFAULT_REQUEST_TIMEOUT)
}

/// Checks the settings and fills in the defaults. The error names the first
/// setting that is missing or out of range.
pub fn parse_config(settings: Settings) -> (r: Result<Config, ProxyError>)
    ensures
        r is Ok <==> settings_valid(settings),
        r matches Ok(c) ==> {
            &&& c.host@ == (match settings.host {
                Some(h) => h@,
                None => "0.0.0.0"@,
            })
            &&& c.port == number_or(settings.port, DEFAULT_PORT)
            &&& c.secret@ == settings.secret->0@
            &&& c.client_timeout == number_or(settings.client_timeout, DEFAULT_CLIENT_TIMEOUT)
            &&& c.request_timeout == number_or(settings.request_timeout, DEFAULT_REQUEST_TIMEOUT)
            &&& c.proxy_mode@ == mode_named(
                to_lowercase(
                    match settings.proxy_mode {
                        Some(m) => m@,
                        None => "none"@,
                    },
                ),
            )
            &&& c.trusted_proxies@ == settings.trusted_proxies@
        },
        r matches Err(e) ==> e is Config,
{
    let host = match settings.host {
        Some(h) => h,
        None => String::from_str("0.0.0.0"),
    };
    let port_setting: i64 = match settings.port {
        Some(p) => p,
        None => DEFAULT_PORT,
    };
    if port_setting < 0 || port_setting > 65535 {
        return Err(ProxyError::Config(String::from_str("port is out of range")));
    }
    let port: u16 = port_setting as u16;
    let secret = match settings.secret {
        Some(s) => s,
        None => {
            return Err(ProxyError::Config(String::from_str("secret is not set")));
        },
    };
    let client_setting: i64 = match settings.client_timeout {
        Some(t) => t,
        None => DEFAULT_CLIENT_TIMEOUT,
    };
    if client_setting < 0 {
        return Err(ProxyError::Config(String::from_str("client_timeout is out of range")));
    }
    let request_setting: i64 = match settings.request_timeout {
        Some(t) => t,
        None => DEFAULT_REQUEST_TIMEOUT,
    };
    if request_setting < 0 {
        return Err(ProxyError::Config(String::from_str("request_timeout is out of range")));
    }
    let proxy_mode = match settings.proxy_mode {
        Some(m) => parse_proxy_mode(m.as_str()),
        None => parse_proxy_mode("none"),
    };
    Ok(
        Config {
            host,
            port,
            secret,
            client_timeout: client_setting as u64,
            request_timeout: request_setting as u64,
            proxy_mode,
            trusted_proxies: settings.trusted_proxies,
        },
    )
}

} // verus!
