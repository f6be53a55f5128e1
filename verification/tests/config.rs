use hackline_gateway::config::{
    default_log_format, default_log_level, default_mode, default_renew_before_days, default_renew_check_secs,
    default_verify_name, GatewayConfig, LogConfig, TlsConfig, TlsMode, ZenohConfig, ZenohTlsConfig,
};
use hackline_gateway::error::GatewayError;

fn tls(f: impl FnOnce(&mut TlsConfig)) -> TlsConfig {
    let mut cfg = TlsConfig {
        acme_domain: None,
        acme_email: None,
        acme_staging: false,
        acme_cache_dir: None,
        acme_renew_before_days: default_renew_before_days(),
        acme_check_interval_secs: default_renew_check_secs(),
        cert_path: None,
        key_path: None,
        self_signed: false,
    };
    f(&mut cfg);
    cfg
}

#[test]
fn tls_mode_self_signed() {
    let cfg = tls(|c| c.self_signed = true);
    assert_eq!(cfg.mode().unwrap(), TlsMode::SelfSigned);
}

#[test]
fn tls_mode_manual() {
    let cfg = tls(|c| {
        c.cert_path = Some("/tmp/cert.pem".into());
        c.key_path = Some("/tmp/key.pem".into());
    });
    assert_eq!(cfg.mode().unwrap(), TlsMode::Manual);
}

#[test]
fn tls_mode_manual_needs_both() {
    let cfg = tls(|c| c.cert_path = Some("/tmp/cert.pem".into()));
    assert!(cfg.mode().is_err());
}

#[test]
fn tls_mode_acme() {
    let cfg = tls(|c| {
        c.acme_domain = Some("example.com".into());
        c.acme_email = Some("admin@example.com".into());
    });
    assert_eq!(cfg.mode().unwrap(), TlsMode::Acme);
}

#[test]
fn tls_mode_acme_needs_email() {
    let cfg = tls(|c| c.acme_domain = Some("example.com".into()));
    assert!(cfg.mode().is_err());
}

#[test]
fn tls_mode_empty_errors() {
    let cfg = tls(|_| {});
    assert!(cfg.mode().is_err());
}

#[test]
fn tls_mode_ambiguous_errors() {
    let cfg = tls(|c| {
        c.self_signed = true;
        c.acme_domain = Some("example.com".into());
        c.acme_email = Some("admin@example.com".into());
    });
    assert!(cfg.mode().is_err());
}

fn config_message(r: Result<TlsMode, GatewayError>) -> String {
    match r {
        Err(GatewayError::Config(m)) => m,
        other => panic!("expected a configuration error, got {:?}", other),
    }
}

#[test]
fn tls_mode_error_messages() {
    assert_eq!(
        config_message(tls(|c| c.acme_domain = Some("example.com".into())).mode()),
        "[tls] acme_domain requires acme_email"
    );
    assert_eq!(
        config_message(tls(|c| c.key_path = Some("/k".into())).mode()),
        "[tls] manual mode requires both cert_path and key_path"
    );
    assert_eq!(config_message(tls(|_| {}).mode()), "[tls] block present but no mode configured");
    assert_eq!(
        config_message(tls(|c| {
            c.self_signed = true;
            c.cert_path = Some("/c".into());
            c.key_path = Some("/k".into());
        })
        .mode()),
        "[tls] ambiguous: set exactly one of acme_domain, cert_path/key_path, or self_signed"
    );
}

#[test]
fn defaults_match_documentation() {
    assert_eq!(default_mode(), "client");
    assert_eq!(default_log_level(), "info");
    assert_eq!(default_log_format(), "pretty");
    assert!(default_verify_name());
    assert_eq!(default_renew_before_days(), 30);
    assert_eq!(default_renew_check_secs(), 43200);
    let log = LogConfig::default();
    assert_eq!(log.level, "info");
    assert_eq!(log.format, "pretty");
}

fn gateway(zenoh: ZenohConfig) -> GatewayConfig {
    GatewayConfig {
        listen: None,
        http_listen: None,
        database: None,
        zenoh,
        tunnels: Vec::new(),
        log: LogConfig::default(),
        tls: None,
    }
}

#[test]
fn zenoh_settings_carry_mode_and_endpoints() {
    let cfg = gateway(ZenohConfig {
        mode: "client".into(),
        listen: vec!["tcp/0.0.0.0:7447".into()],
        connect: vec![],
        tls: None,
    });
    let settings = cfg.zenoh_settings().unwrap();
    let pairs: Vec<(String, String)> = settings.iter().map(|s| (s.key.clone(), s.json5.clone())).collect();
    assert!(pairs.contains(&("mode".to_string(), "\"client\"".to_string())));
    assert!(pairs.contains(&("listen/endpoints".to_string(), "[\"tcp/0.0.0.0:7447\"]".to_string())));
}

#[test]
fn zenoh_settings_with_tls_paths() {
    let cfg = gateway(ZenohConfig {
        mode: "router".into(),
        listen: vec![],
        connect: vec![],
        tls: Some(ZenohTlsConfig {
            root_ca_certificate: "/ca.pem".into(),
            server_certificate: Some("/srv.pem".into()),
            server_private_key: None,
            client_certificate: None,
            client_private_key: None,
            client_auth: true,
            verify_name_on_connect: false,
        }),
    });
    let settings = cfg.zenoh_settings().unwrap();
    let keys: Vec<String> = settings.iter().map(|s| s.key.clone()).collect();
    assert!(keys.iter().any(|k| k.ends_with("root_ca_certificate")));
    assert!(keys.iter().any(|k| k.ends_with("listen_certificate")));
    assert!(!keys.iter().any(|k| k.ends_with("listen_private_key")));
}
