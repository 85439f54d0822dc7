use zicade::config::{
    AuthConfig, AuthMode, Config, ListenConfig, PacConfig, RoutingConfig, RoutingMode,
    UpstreamConfig,
};
use zicade::proxy::{Routing, UpstreamAuth};
use zicade::wiring::{build_auth, build_routing, rebuild_or_direct, routing_mode_label, BuildError};

fn direct_config(port: u16) -> Config {
    Config {
        listen: ListenConfig {
            host: "127.0.0.1".to_owned(),
            port,
        },
        ..Default::default()
    }
}

#[test]
fn build_routing_maps_direct_and_upstream() {
    let direct = build_routing(&direct_config(3129)).expect("direct routing builds");
    assert!(matches!(direct, Routing::Direct), "got {}", direct.label());

    let cfg = Config {
        routing: RoutingConfig {
            mode: RoutingMode::Upstream,
            upstream: Some(UpstreamConfig {
                host: "wp8080".to_owned(),
                port: 8080,
                auth: AuthConfig {
                    mode: AuthMode::NoAuth,
                    ..Default::default()
                },
            }),
            pac: None,
            corp_network: None,
        },
        ..Default::default()
    };
    let upstream = build_routing(&cfg).expect("upstream routing builds");
    assert!(matches!(upstream, Routing::Upstream(_)), "got {}", upstream.label());
}

#[test]
fn upstream_target_address_and_negotiate_spn() {
    let cfg = Config {
        routing: RoutingConfig {
            mode: RoutingMode::Upstream,
            upstream: Some(UpstreamConfig {
                host: "wp8080".to_owned(),
                port: 8080,
                auth: AuthConfig {
                    mode: AuthMode::Negotiate,
                    ..Default::default()
                },
            }),
            ..Default::default()
        },
        ..Default::default()
    };
    match build_routing(&cfg) {
        Ok(Routing::Upstream(t)) => {
            assert_eq!(t.addr, "wp8080:8080");
            match t.auth {
                UpstreamAuth::Negotiate { spn } => assert_eq!(spn, "HTTP/wp8080"),
                other => panic!("expected Negotiate, got {}", other.label()),
            }
        }
        _ => panic!("expected an upstream routing"),
    }
}

#[test]
fn basic_auth_is_not_wired_and_connects_without_proxy_auth() {
    let auth = AuthConfig {
        mode: AuthMode::Basic,
        username: Some("u".to_owned()),
        ..Default::default()
    };
    assert_eq!(build_auth(&auth, "h").label(), "None");
}

#[test]
fn missing_sections_are_errors_and_pac_runs_direct() {
    let mut cfg = direct_config(3129);
    cfg.routing.mode = RoutingMode::Upstream;
    assert!(matches!(build_routing(&cfg), Err(BuildError::MissingUpstream)));
    assert_eq!(rebuild_or_direct(&cfg).label(), "Direct");
    cfg.routing.mode = RoutingMode::Pac;
    let err = build_routing(&cfg).err().expect("pac without section fails");
    assert_eq!(err, BuildError::MissingPac);
    assert_eq!(err.message(), "routing.mode = pac requires a [routing.pac] section");
    assert_eq!(
        BuildError::MissingUpstream.message(),
        "routing.mode = upstream requires a [routing.upstream] section"
    );
    cfg.routing.pac = Some(PacConfig::default());
    assert!(matches!(build_routing(&cfg), Ok(Routing::Direct)));
}

#[test]
fn routing_mode_labels() {
    assert_eq!(routing_mode_label(RoutingMode::Direct), "direct");
    assert_eq!(routing_mode_label(RoutingMode::Upstream), "upstream");
    assert_eq!(routing_mode_label(RoutingMode::Pac), "pac");
}
