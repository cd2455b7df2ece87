//! Settings of the tunnel client.

use crate::error::ProxyError;
use crate::text::{decimal, decimal_string, starts_with, str_eq, to_chars};
use vstd::prelude::*;

verus! {

/// The value of `ha_server` that asks for the address of Home Assistant to
/// be looked up at the Supervisor.
pub const HA_SERVER_DETECT: &'static str = "DETECT";

/// Which assistants the client serves.
#[derive(Clone, Copy, Debug, PartialEq, Eq, Structural)]
pub struct Features {
    pub assistant_alexa: bool,
    pub assistant_google: bool,
}

/// The settings of the tunnel client.
#[derive(Clone, Debug)]
pub struct Config {
    /// Base URL of the public server.
    pub server: String,
    /// Seconds between two attempts to connect.
    pub reconnect_interval: u64,
    /// Seconds between two pings.
    pub heartbeat_interval: u64,
    /// Base URL of Home Assistant.
    pub ha_server: String,
    /// Base URL under which a browser reaches Home Assistant.
    pub ha_external_url: String,
    /// Seconds that a request to Home Assistant may take.
    pub ha_timeout: u64,
    /// Whether the certificate of Home Assistant goes unchecked.
    pub ha_ignore_ssl: bool,
    /// Whether the address of the public caller is passed on.
    pub ha_pass_client_ip: bool,
    /// The secret shared with the server.
    pub secret: String,
    /// Which assistants are served.
    pub features: Features,
}

/// The client's settings as a configuration source yields them, before
/// they are checked. `None` stands for a setting that is not given.
#[derive(Clone, Debug)]
pub struct Settings {
    pub server: Option<String>,
    pub reconnect_interval: Option<i64>,
    pub heartbeat_interval: Option<i64>,
    pub ha_server: Option<String>,
    pub ha_external_url: Option<String>,
    pub ha_timeout: Option<i64>,
    pub ha_ignore_ssl: Option<bool>,
    pub ha_pass_client_ip: Option<bool>,
    pub secret: Option<String>,
    pub assistant_alexa: Option<bool>,
    pub assistant_google: Option<bool>,
}

/// What the Supervisor says of Home Assistant.
#[derive(Clone, Debug)]
pub struct SupervisorCoreInfo {
    pub ip_address: String,
    pub port: u16,
    pub ssl: bool,
}

/// Where Home Assistant is reached, and whether over TLS.
#[derive(Clone, Debug)]
pub struct ResolvedHaServer {
    pub url: String,
    pub uses_ssl: bool,
}

/// The base URL of a Home Assistant that the Supervisor describes.
pub open spec fn detected_url(ip_address: Seq<char>, port: u16, ssl: bool) -> Seq<char> {
    (if ssl {
        "https"@
    } else {
        "http"@
    }) + "://"@ + ip_address + ":"@ + decimal(port as nat)
}

/// Whether `url` and `uses_ssl` are where the setting `ha_server` points:
/// the setting itself, over TLS where it begins with `https://`, or, for the
/// setting `DETECT`, what the Supervisor says.
pub open spec fn resolves_to(
    ha_server: Seq<char>,
    detected: Option<SupervisorCoreInfo>,
    url: Seq<char>,
    uses_ssl: bool,
) -> bool {
    if ha_server != HA_SERVER_DETECT@ {
        url == ha_server && uses_ssl == "https://"@.is_prefix_of(ha_server)
    } else {
        detected matches Some(info) && url == detected_url(info.ip_address@, info.port, info.ssl)
            && uses_ssl == info.ssl
    }
}

/// Tells whether the setting `ha_server` asks for the Supervisor's answer.
pub fn needs_detection(ha_server_config: &str) -> (yes: bool)
    ensures
        yes == (ha_server_config@ == HA_SERVER_DETECT@),
{
    str_eq(ha_server_config, HA_SERVER_DETECT)
}

/// Finds where Home Assistant is reached. `detected` is the Supervisor's
/// answer, which is needed only for the setting `DETECT`; without it that
/// setting is an error.
pub fn resolve_ha_server(ha_server_config: &str, detected: Option<SupervisorCoreInfo>) -> (r: Result<
    ResolvedHaServer,
    ProxyError,
>)
    ensures
        r is Ok <==> (ha_server_config@ != HA_SERVER_DETECT@ || detected is Some),
        r matches Ok(resolved) ==> resolves_to(
            ha_server_config@,
            detected,
            resolved.url@,
            resolved.uses_ssl,
        ),
        r matches Err(e) ==> e is Config,
{
    if !needs_detection(ha_server_config) {
        let chars = to_chars(ha_server_config);
        let uses_ssl = starts_with(&chars, "https://");
        return Ok(ResolvedHaServer { url: String::from_str(ha_server_config), uses_ssl });
    }
    match detected {
        Some(info) => {
            let scheme = if info.ssl {
                "https"
            } else {
                "http"
            };
            let port = decimal_string(info.port as u64);
            let url = String::from_str(scheme).concat("://").concat(info.ip_address.as_str()).concat(
                ":",
            ).concat(port.as_str());
            assert(url@ =~= detected_url(info.ip_address@, info.port, info.ssl));
            Ok(ResolvedHaServer { url, uses_ssl: info.ssl })
        },
        None => Err(
            ProxyError::Config(
                String::from_str("ha_server is set to DETECT but the Supervisor gave no answer"),
            ),
        ),
    }
}

/// Seconds between two attempts to connect where none are set.
pub const DEFAULT_RECONNECT_INTERVAL: i64 = 5;

/// Seconds between two pings where none are set.
pub const DEFAULT_HEARTBEAT_INTERVAL: i64 = 30;

/// Seconds that a request to Home Assistant may take where none are set.
pub const DEFAULT_HA_TIMEOUT: i64 = 10;

/// The value of a numeric setting, or its default.
pub open spec fn number_or(setting: Option<i64>, default: i64) -> i64 {
    match setting {
        Some(n) => n,
        None => default,
    }
}

/// The value of a switch, or its default.
pub open spec fn switch_or(setting: Option<bool>, default: bool) -> bool {
    match setting {
        Some(b) => b,
        None => default,
    }
}

/// Whether the settings make a configuration: server, Home Assistant and
/// secret are given, no interval or timeout is negative, and the Supervisor
/// has answered where it was asked.
pub open spec fn settings_valid(s: Settings, detected: Option<SupervisorCoreInfo>) -> bool {
    &&& s.server is Some
    &&& s.ha_server is Some
    &&& s.secret is Some
    &&& 0 <= number_or(s.reconnect_interval, DEFAULT_RECONNECT_INTERVAL)
    &&& 0 <= number_or(s.heartbeat_interval, DEFAULT_HEARTBEAT_INTERVAL)
    &&& 0 <= number_or(s.ha_timeout, DEFAULT_HA_TIMEOUT)
    &&& (s.ha_server->0@ != HA_SERVER_DETECT@ || detected is Some)
}

/// Whether `c` is the configuration that valid settings make.
pub open spec fn config_of(c: Config, s: Settings, detected: Option<SupervisorCoreInfo>) -> bool {
    &&& c.server@ == s.server->0@
    &&& c.reconnect_interval == number_or(s.reconnect_interval, DEFAULT_RECONNECT_INTERVAL)
    &&& c.heartbeat_interval == number_or(s.heartbeat_interval, DEFAULT_HEARTBEAT_INTERVAL)
    &&& c.ha_timeout == number_or(s.ha_timeout, DEFAULT_HA_TIMEOUT)
    &&& exists|uses_ssl: bool|
        {
            &&& #[trigger] resolves_to(s.ha_server->0@, detected, c.ha_server@, uses_ssl)
            &&& c.ha_ignore_ssl == (if s.ha_server->0@ == HA_SERVER_DETECT@ && uses_ssl {
                true
            } else {
                switch_or(s.ha_ignore_ssl, false)
            })
        }
    &&& c.ha_external_url@ == (match s.ha_external_url {
        Some(url) => url@,
        None => c.ha_server@,
    })
    &&& c.ha_pass_client_ip == switch_or(s.ha_pass_client_ip, false)
    &&& c.secret@ == s.secret->0@
    &&& c.features.assistant_alexa == switch_or(s.assistant_alexa, true)
    &&& c.features.assistant_google == switch_or(s.assistant_google, true)
}

/// An interval or timeout in seconds from its setting.
fn seconds(setting: Option<i64>, default: i64, name: &str) -> (r: Result<u64, ProxyError>)
    requires
        default >= 0,
    ensures
        r is Ok <==> 0 <= number_or(setting, default),
        r matches Ok(n) ==> n == number_or(setting, default),
        r matches Err(e) ==> e is Config,
{
    let n: i64 = match setting {
        Some(n) => n,
        None => default,
    };
    if n < 0 {
        Err(ProxyError::Config(String::from_str(name).concat(" is out of range")))
    } else {
        Ok(n as u64)
    }
}

/// A text that must be set.
fn required(setting: Option<String>, name: &str) -> (r: Result<String, ProxyError>)
    ensures
        r is Ok <==> setting is Some,
        r matches Ok(s) ==> s@ == setting->0@,
        r matches Err(e) ==> e is Config,
{
    match setting {
        Some(s) => Ok(s),
        None => Err(ProxyError::Config(String::from_str(name).concat(" is not set"))),
    }
}

/// Checks the settings and fills in the defaults. `detected` is the
/// Supervisor's answer, which is needed where `ha_server` is `DETECT`.
pub fn parse_config(settings: Settings, detected: Option<SupervisorCoreInfo>) -> (r: Result<
    Config,
    ProxyError,
>)
    ensures
        r is Ok <==> settings_valid(settings, detected),
        r matches Ok(c) ==> config_of(c, settings, detected),
        r matches Err(e) ==> e is Config,
{
    let server = match required(settings.server, "server") {
        Ok(s) => s,
        Err(e) => {
            return Err(e);
        },
    };
    let reconnect_interval = match seconds(
        settings.reconnect_interval,
        DEFAULT_RECONNECT_INTERVAL,
        "reconnect_interval",
    ) {
        Ok(n) => n,
        Err(e) => {
            return Err(e);
        },
    };
    let heartbeat_interval = match seconds(
        settings.heartbeat_interval,
        DEFAULT_HEARTBEAT_INTERVAL,
        "heartbeat_interval",
    ) {
        Ok(n) => n,
        Err(e) => {
            return Err(e);
        },
    };
    let ha_server_config = match required(settings.ha_server, "ha_server") {
        Ok(s) => s,
        Err(e) => {
            return Err(e);
        },
    };
    let resolved = match resolve_ha_server(ha_server_config.as_str(), detected) {
        Ok(resolved) => resolved,
        Err(e) => {
            return Err(e);
        },
    };
    let ha_timeout = match seconds(settings.ha_timeout, DEFAULT_HA_TIMEOUT, "ha_timeout") {
        Ok(n) => n,
        Err(e) => {
            return Err(e);
        },
    };
    let ha_external_url = match settings.ha_external_url {
        Some(url) => url,
        None => resolved.url.clone(),
    };
    let ha_ignore_ssl = if needs_detection(ha_server_config.as_str()) && resolved.uses_ssl {
        true
    } else {
        match settings.ha_ignore_ssl {
            Some(b) => b,
            None => false,
        }
    };
    let ha_pass_client_ip = match settings.ha_pass_client_ip {
        Some(b) => b,
        None => false,
    };
    let assistant_alexa = match settings.assistant_alexa {
        Some(b) => b,
        None => true,
    };
    let assistant_google = match settings.assistant_google {
        Some(b) => b,
        None => true,
    };
    let secret = match required(settings.secret, "secret") {
        Ok(s) => s,
        Err(e) => {
            return Err(e);
        },
    };
    let config = Config {
        server,
        reconnect_interval,
        heartbeat_interval,
        ha_server: resolved.url,
        ha_external_url,
        ha_timeout,
        ha_ignore_ssl,
        ha_pass_client_ip,
        secret,
        features: Features { assistant_alexa, assistant_google },
    };
    assert(resolves_to(settings.ha_server->0@, detected, config.ha_server@, resolved.uses_ssl));
    Ok(config)
}

} // verus!
