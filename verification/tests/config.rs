use zicade::config::{
    AuthConfig, AuthMode, Config, ConfigError, CorpNetworkConfig, FailPolicy, ListenConfig,
    PacConfig, PacSource, RoutingConfig, RoutingMode, UpstreamConfig, ValidationCtx,
};

fn negotiate() -> AuthConfig {
    AuthConfig {
        mode: AuthMode::Negotiate,
        ..Default::default()
    }
}

/// The full example schema, built in code: PAC mode with an upstream section,
/// negotiate auth on both.
fn full_example() -> Config {
    Config {
        listen: ListenConfig {
            host: "127.0.0.1".to_owned(),
            port: 3129,
        },
        routing: RoutingConfig {
            mode: RoutingMode::Pac,
            upstream: Some(UpstreamConfig {
                host: "wp8080".to_owned(),
                port: 8080,
                auth: negotiate(),
            }),
            pac: Some(PacConfig {
                source: PacSource::Auto,
                path: None,
                url: None,
                fail_policy: FailPolicy::Error,
                auth: negotiate(),
            }),
            corp_network: None,
        },
        ..Default::default()
    }
}

fn with_mode(mode: RoutingMode, port: u16) -> Config {
    Config {
        listen: ListenConfig {
            host: "127.0.0.1".to_owned(),
            port,
        },
        routing: RoutingConfig {
            mode,
            ..Default::default()
        },
        ..Default::default()
    }
}

fn pac_with_corp(corp: Option<CorpNetworkConfig>) -> Config {
    let mut cfg = with_mode(RoutingMode::Pac, 3129);
    cfg.routing.pac = Some(PacConfig::default());
    cfg.routing.corp_network = corp;
    cfg
}

#[test]
fn defaults_are_loopback_3129() {
    let cfg = Config::default();
    assert_eq!(cfg.listen.host, "127.0.0.1");
    assert_eq!(cfg.listen.port, 3129);
}

#[test]
fn default_config_is_direct_info_json_and_valid() {
    let cfg = Config::default();
    assert_eq!(cfg.routing.mode, RoutingMode::Direct);
    assert!(cfg.routing.upstream.is_none());
    assert!(cfg.routing.pac.is_none());
    assert!(cfg.routing.corp_network.is_none());
    assert_eq!(cfg.logging.level, "info");
    assert_eq!(cfg.logging.format, "json");
    assert!(!cfg.web.auth_required);
    assert_eq!(cfg.validate(&ValidationCtx { negotiate_supported: false }), Ok(()));
}

#[test]
fn rejects_zero_listen_port() {
    let cfg = with_mode(RoutingMode::Direct, 0);
    let err = cfg.validate(&ValidationCtx::windows()).expect_err("port 0 is invalid");
    assert_eq!(err, ConfigError::InvalidPort { field: "listen.port", port: 0 });
}

#[test]
fn upstream_mode_requires_upstream_section() {
    let cfg = with_mode(RoutingMode::Upstream, 3129);
    let err = cfg
        .validate(&ValidationCtx::windows())
        .expect_err("upstream mode without upstream section is invalid");
    assert!(matches!(err, ConfigError::MissingSection { .. }), "got {err:?}");
}

#[test]
fn pac_mode_requires_pac_section() {
    let cfg = with_mode(RoutingMode::Pac, 3129);
    let err = cfg
        .validate(&ValidationCtx::windows())
        .expect_err("pac mode without pac section is invalid");
    assert_eq!(err, ConfigError::MissingSection { mode: "pac", missing: "pac" });
}

#[test]
fn negotiate_rejected_when_platform_lacks_support() {
    let cfg = full_example();
    let off = ValidationCtx { negotiate_supported: false };
    let err = cfg.validate(&off).expect_err("negotiate must be rejected without platform support");
    assert!(matches!(err, ConfigError::NegotiateUnsupported { .. }), "got {err:?}");
    let on = ValidationCtx { negotiate_supported: true };
    cfg.validate(&on).expect("negotiate is valid with platform support");
}

#[test]
fn negotiate_in_pac_auth_also_checked() {
    let mut cfg = with_mode(RoutingMode::Pac, 3129);
    cfg.routing.pac = Some(PacConfig {
        fail_policy: FailPolicy::Direct,
        auth: negotiate(),
        ..Default::default()
    });
    let err = cfg
        .validate(&ValidationCtx { negotiate_supported: false })
        .expect_err("pac.auth negotiate must be checked too");
    match err {
        ConfigError::NegotiateUnsupported { field } => {
            assert!(field.contains("pac"), "field was {field}");
        }
        other => panic!("got {other:?}"),
    }
}

#[test]
fn pac_selected_upstream_inherits_pac_auth() {
    let cfg = full_example();
    let pac_auth = cfg.routing.pac.as_ref().unwrap().auth.clone();
    let effective = cfg
        .routing
        .pac_upstream("gateway.example.com", 8080)
        .expect("pac_upstream builds an upstream when pac config is present");
    assert_eq!(effective.host, "gateway.example.com");
    assert_eq!(effective.port, 8080);
    assert_eq!(effective.auth, pac_auth, "PAC-selected upstream must inherit pac.auth");
    assert_eq!(effective.auth.mode, AuthMode::Negotiate);
}

#[test]
fn pac_upstream_without_pac_section_is_none() {
    let cfg = with_mode(RoutingMode::Direct, 3129);
    assert!(cfg.routing.pac_upstream("gw", 1).is_none());
}

#[test]
fn upstream_port_zero_is_rejected() {
    let mut cfg = with_mode(RoutingMode::Upstream, 3129);
    cfg.routing.upstream = Some(UpstreamConfig {
        host: "wp".to_owned(),
        port: 0,
        auth: AuthConfig::default(),
    });
    assert_eq!(
        cfg.validate(&ValidationCtx::windows()),
        Err(ConfigError::InvalidPort { field: "routing.upstream.port", port: 0 })
    );
}

#[test]
fn basic_auth_needs_a_non_blank_username() {
    let mut cfg = with_mode(RoutingMode::Upstream, 3129);
    cfg.routing.upstream = Some(UpstreamConfig {
        host: "wp".to_owned(),
        port: 8080,
        auth: AuthConfig {
            mode: AuthMode::Basic,
            username: Some("   ".to_owned()),
            password: Some(String::new()),
            ..Default::default()
        },
    });
    assert_eq!(
        cfg.validate(&ValidationCtx::windows()),
        Err(ConfigError::MissingCredentials { field: "routing.upstream.auth" })
    );
    cfg.routing.upstream.as_mut().unwrap().auth.username = Some("alice".to_owned());
    assert_eq!(cfg.validate(&ValidationCtx::windows()), Ok(()));
}

#[test]
fn config_errors_carry_their_fields() {
    let io = ConfigError::Io { path: "c.json".to_owned(), message: "denied".to_owned() };
    assert!(matches!(io, ConfigError::Io { ref path, .. } if path == "c.json"));
    let parse = ConfigError::Parse("bad".to_owned());
    assert_ne!(parse, io);
}

#[test]
fn corp_network_absent_is_none_and_valid() {
    let cfg = pac_with_corp(None);
    assert!(cfg.routing.corp_network.is_none());
    cfg.validate(&ValidationCtx::windows()).expect("no corpNetwork section is valid");
}

#[test]
fn corp_network_parses_and_defaults_poll_seconds() {
    let cfg = pac_with_corp(Some(CorpNetworkConfig {
        enabled: true,
        dns_suffixes: vec!["droot.org".to_owned()],
        ..Default::default()
    }));
    let corp = cfg.routing.corp_network.as_ref().expect("corpNetwork present");
    assert!(corp.enabled);
    assert_eq!(corp.dns_suffixes, vec!["droot.org".to_owned()]);
    assert_eq!(corp.poll_seconds, 30, "pollSeconds defaults to 30 when omitted");
    cfg.validate(&ValidationCtx::windows()).expect("enabled with a suffix is valid");
}

#[test]
fn corp_network_enabled_requires_a_suffix() {
    let cfg = pac_with_corp(Some(CorpNetworkConfig {
        enabled: true,
        dns_suffixes: vec![],
        poll_seconds: 30,
    }));
    let err = cfg.validate(&ValidationCtx::windows()).expect_err("enabled without a suffix is invalid");
    assert!(matches!(err, ConfigError::CorpNetwork { .. }), "got {err:?}");
}

#[test]
fn corp_network_blank_suffixes_do_not_count() {
    let cfg = pac_with_corp(Some(CorpNetworkConfig {
        enabled: true,
        dns_suffixes: vec!["  ".to_owned(), "".to_owned()],
        poll_seconds: 30,
    }));
    assert!(matches!(
        cfg.validate(&ValidationCtx::windows()),
        Err(ConfigError::CorpNetwork { .. })
    ));
}

#[test]
fn corp_network_rejects_zero_poll_seconds() {
    let cfg = pac_with_corp(Some(CorpNetworkConfig {
        enabled: true,
        dns_suffixes: vec!["droot.org".to_owned()],
        poll_seconds: 0,
    }));
    let err = cfg.validate(&ValidationCtx::windows()).expect_err("pollSeconds 0 is invalid");
    assert_eq!(err, ConfigError::CorpNetwork { reason: "pollSeconds must be greater than zero" });
}

#[test]
fn corp_network_disabled_needs_no_suffix() {
    let mut cfg = with_mode(RoutingMode::Direct, 3129);
    cfg.routing.corp_network = Some(CorpNetworkConfig {
        enabled: false,
        dns_suffixes: vec![],
        poll_seconds: 30,
    });
    cfg.validate(&ValidationCtx::windows()).expect("disabled gate is valid without suffixes");
}

#[test]
fn config_clone_is_equal() {
    let mut cfg = full_example();
    cfg.routing.corp_network = Some(CorpNetworkConfig {
        enabled: true,
        dns_suffixes: vec!["a.b".to_owned()],
        poll_seconds: 7,
    });
    assert_eq!(cfg.clone(), cfg);
}
