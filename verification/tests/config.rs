use ha_tunnel::client::config::{
    needs_detection, parse_config as parse_client_config, resolve_ha_server,
    Settings as ClientSettings, SupervisorCoreInfo,
};
use ha_tunnel::error::ProxyError;
use ha_tunnel::server::client_ip::IpAddress;
use ha_tunnel::server::config::{
    parse_config as parse_server_config, parse_proxy_mode, proxy_mode_named, ProxyMode,
    Settings as ServerSettings,
};

#[test]
fn proxy_modes_have_their_names() {
    for name in ["none", "", "NONE"] {
        assert_eq!(parse_proxy_mode(name), ProxyMode::Direct);
    }
    for name in ["x-forwarded-for", "xforwardedfor", "xff", "X-Forwarded-For", "XFF"] {
        assert_eq!(parse_proxy_mode(name), ProxyMode::XForwardedFor);
    }
    for name in ["x-real-ip", "xrealip", "X-Real-IP"] {
        assert_eq!(parse_proxy_mode(name), ProxyMode::XRealIp);
    }
    for name in ["cloudflare", "cf-connecting-ip", "Cloudflare"] {
        assert_eq!(parse_proxy_mode(name), ProxyMode::Cloudflare);
    }
    for name in ["true-client-ip", "trueclientip", "akamai", "Akamai"] {
        assert_eq!(parse_proxy_mode(name), ProxyMode::TrueClientIp);
    }
    for name in ["forwarded", "rfc7239", "Forwarded", "RFC7239"] {
        assert_eq!(parse_proxy_mode(name), ProxyMode::Forwarded);
    }
}

#[test]
fn other_names_are_custom_headers_in_lower_case() {
    assert_eq!(parse_proxy_mode("X-Client-IP"), ProxyMode::Custom("x-client-ip".to_string()));
    assert_eq!(parse_proxy_mode(" none"), ProxyMode::Custom(" none".to_string()));
    assert_eq!(parse_proxy_mode("ÄB"), ProxyMode::Custom("äb".to_string()));
}

#[test]
fn names_in_lower_case_are_taken_as_they_are() {
    assert_eq!(proxy_mode_named("xff".to_string()), ProxyMode::XForwardedFor);
    assert_eq!(proxy_mode_named("XFF".to_string()), ProxyMode::Custom("XFF".to_string()));
}

#[test]
fn modes_name_their_header() {
    assert_eq!(ProxyMode::Direct.header_name(), None);
    assert_eq!(ProxyMode::XForwardedFor.header_name(), Some("x-forwarded-for"));
    assert_eq!(ProxyMode::XRealIp.header_name(), Some("x-real-ip"));
    assert_eq!(ProxyMode::Cloudflare.header_name(), Some("cf-connecting-ip"));
    assert_eq!(ProxyMode::TrueClientIp.header_name(), Some("true-client-ip"));
    assert_eq!(ProxyMode::Forwarded.header_name(), Some("forwarded"));
    assert_eq!(ProxyMode::Custom("x-me".to_string()).header_name(), Some("x-me"));
    assert_eq!(ProxyMode::default(), ProxyMode::Direct);
}

fn server_settings() -> ServerSettings {
    ServerSettings {
        host: None,
        port: None,
        secret: Some("s3cret".to_string()),
        client_timeout: None,
        request_timeout: None,
        proxy_mode: None,
        trusted_proxies: vec![],
    }
}

#[test]
fn server_defaults_are_filled_in() {
    let config = parse_server_config(server_settings()).unwrap();
    assert_eq!(config.host, "0.0.0.0");
    assert_eq!(config.port, 3000);
    assert_eq!(config.secret, "s3cret");
    assert_eq!(config.client_timeout, 10);
    assert_eq!(config.request_timeout, 30);
    assert_eq!(config.proxy_mode, ProxyMode::Direct);
    assert!(config.trusted_proxies.is_empty());
}

#[test]
fn server_settings_are_taken_over() {
    let mut settings = server_settings();
    settings.host = Some("127.0.0.1".to_string());
    settings.port = Some(65535);
    settings.client_timeout = Some(0);
    settings.request_timeout = Some(i64::MAX);
    settings.proxy_mode = Some("Cloudflare".to_string());
    settings.trusted_proxies = vec![IpAddress::V4(0x0a000001), IpAddress::V6(1)];
    let config = parse_server_config(settings).unwrap();
    assert_eq!(config.host, "127.0.0.1");
    assert_eq!(config.port, 65535);
    assert_eq!(config.client_timeout, 0);
    assert_eq!(config.request_timeout, i64::MAX as u64);
    assert_eq!(config.proxy_mode, ProxyMode::Cloudflare);
    assert_eq!(config.trusted_proxies, vec![IpAddress::V4(0x0a000001), IpAddress::V6(1)]);
}

#[test]
fn server_settings_out_of_range_are_errors() {
    let broken: [fn(&mut ServerSettings); 6] = [
        |s| s.secret = None,
        |s| s.port = Some(65536),
        |s| s.port = Some(-1),
        |s| s.client_timeout = Some(-1),
        |s| s.request_timeout = Some(-30),
        |s| s.port = Some(i64::MIN),
    ];
    for breakage in broken {
        let mut settings = server_settings();
        breakage(&mut settings);
        assert!(matches!(parse_server_config(settings), Err(ProxyError::Config(_))));
    }
}

fn client_settings() -> ClientSettings {
    ClientSettings {
        server: Some("wss://edge.example".to_string()),
        reconnect_interval: None,
        heartbeat_interval: None,
        ha_server: Some("http://ha.local:8123".to_string()),
        ha_external_url: None,
        ha_timeout: None,
        ha_ignore_ssl: None,
        ha_pass_client_ip: None,
        secret: Some("s3cret".to_string()),
        assistant_alexa: None,
        assistant_google: None,
    }
}

fn supervisor(ssl: bool) -> SupervisorCoreInfo {
    SupervisorCoreInfo { ip_address: "172.30.32.1".to_string(), port: 8123, ssl }
}

#[test]
fn client_defaults_are_filled_in() {
    let config = parse_client_config(client_settings(), None).unwrap();
    assert_eq!(config.server, "wss://edge.example");
    assert_eq!(config.reconnect_interval, 5);
    assert_eq!(config.heartbeat_interval, 30);
    assert_eq!(config.ha_server, "http://ha.local:8123");
    assert_eq!(config.ha_external_url, "http://ha.local:8123");
    assert_eq!(config.ha_timeout, 10);
    assert!(!config.ha_ignore_ssl);
    assert!(!config.ha_pass_client_ip);
    assert_eq!(config.secret, "s3cret");
    assert!(config.features.assistant_alexa);
    assert!(config.features.assistant_google);
}

#[test]
fn client_settings_are_taken_over() {
    let mut settings = client_settings();
    settings.reconnect_interval = Some(1);
    settings.heartbeat_interval = Some(0);
    settings.ha_server = Some("https://ha.local".to_string());
    settings.ha_external_url = Some("https://ext.example".to_string());
    settings.ha_timeout = Some(60);
    settings.ha_ignore_ssl = Some(true);
    settings.ha_pass_client_ip = Some(true);
    settings.assistant_alexa = Some(false);
    settings.assistant_google = Some(false);
    let config = parse_client_config(settings, Some(supervisor(true))).unwrap();
    assert_eq!(config.reconnect_interval, 1);
    assert_eq!(config.heartbeat_interval, 0);
    assert_eq!(config.ha_server, "https://ha.local");
    assert_eq!(config.ha_external_url, "https://ext.example");
    assert_eq!(config.ha_timeout, 60);
    assert!(config.ha_ignore_ssl);
    assert!(config.ha_pass_client_ip);
    assert!(!config.features.assistant_alexa);
    assert!(!config.features.assistant_google);
}

#[test]
fn https_given_by_hand_does_not_switch_off_the_certificate_check() {
    let mut settings = client_settings();
    settings.ha_server = Some("https://ha.local".to_string());
    let config = parse_client_config(settings, None).unwrap();
    assert!(!config.ha_ignore_ssl);
}

#[test]
fn detected_server_is_taken_from_the_supervisor() {
    let mut settings = client_settings();
    settings.ha_server = Some("DETECT".to_string());
    let plain = parse_client_config(settings.clone(), Some(supervisor(false))).unwrap();
    assert_eq!(plain.ha_server, "http://172.30.32.1:8123");
    assert_eq!(plain.ha_external_url, "http://172.30.32.1:8123");
    assert!(!plain.ha_ignore_ssl);
    settings.ha_ignore_ssl = Some(false);
    let secure = parse_client_config(settings, Some(supervisor(true))).unwrap();
    assert_eq!(secure.ha_server, "https://172.30.32.1:8123");
    assert!(secure.ha_ignore_ssl);
}

#[test]
fn client_settings_missing_or_out_of_range_are_errors() {
    let broken: [fn(&mut ClientSettings); 7] = [
        |s| s.server = None,
        |s| s.ha_server = None,
        |s| s.secret = None,
        |s| s.reconnect_interval = Some(-1),
        |s| s.heartbeat_interval = Some(-1),
        |s| s.ha_timeout = Some(-1),
        |s| s.ha_server = Some("DETECT".to_string()),
    ];
    for breakage in broken {
        let mut settings = client_settings();
        breakage(&mut settings);
        assert!(matches!(parse_client_config(settings, None), Err(ProxyError::Config(_))));
    }
}

#[test]
fn literal_server_resolves_to_itself() {
    assert!(!needs_detection("http://ha.local"));
    assert!(!needs_detection("detect"));
    assert!(needs_detection("DETECT"));
    let plain = resolve_ha_server("http://ha.local", None).unwrap();
    assert_eq!(plain.url, "http://ha.local");
    assert!(!plain.uses_ssl);
    let secure = resolve_ha_server("https://ha.local", Some(supervisor(false))).unwrap();
    assert_eq!(secure.url, "https://ha.local");
    assert!(secure.uses_ssl);
    assert!(!resolve_ha_server("HTTPS://ha.local", None).unwrap().uses_ssl);
}

#[test]
fn detection_builds_the_address() {
    let info = SupervisorCoreInfo { ip_address: "10.0.0.2".to_string(), port: 0, ssl: false };
    let resolved = resolve_ha_server("DETECT", Some(info)).unwrap();
    assert_eq!(resolved.url, "http://10.0.0.2:0");
    assert!(!resolved.uses_ssl);
    let info = SupervisorCoreInfo { ip_address: "ha".to_string(), port: 65535, ssl: true };
    let resolved = resolve_ha_server("DETECT", Some(info)).unwrap();
    assert_eq!(resolved.url, "https://ha:65535");
    assert!(resolved.uses_ssl);
    assert!(matches!(resolve_ha_server("DETECT", None), Err(ProxyError::Config(_))));
}
