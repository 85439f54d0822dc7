use zicade::config::{AuthMode, FailPolicy, PacConfig};
use zicade::routing::{FakeBackend, PacResult, RouteDecision, RouteResolver, RoutingError};

fn proxy(host: &str, port: u16) -> PacResult {
    PacResult::Proxy {
        host: host.to_owned(),
        port,
    }
}

#[test]
fn parse_direct() {
    assert_eq!(PacResult::parse("DIRECT"), PacResult::Direct);
}

#[test]
fn parse_proxy() {
    assert_eq!(PacResult::parse("PROXY wp8080:8080"), proxy("wp8080", 8080));
}

#[test]
fn parse_proxy_then_direct_takes_first_proxy() {
    assert_eq!(PacResult::parse("PROXY wp8080:8080; DIRECT"), proxy("wp8080", 8080));
}

#[test]
fn parse_empty_is_direct() {
    assert_eq!(PacResult::parse(""), PacResult::Direct);
}

#[test]
fn parse_whitespace_is_direct() {
    assert_eq!(PacResult::parse("   \t  "), PacResult::Direct);
}

#[test]
fn parse_socks_is_skipped_to_next_proxy() {
    assert_eq!(
        PacResult::parse("SOCKS sock5:1080; PROXY wp8080:8080"),
        proxy("wp8080", 8080)
    );
}

#[test]
fn parse_bare_winhttp_proxy_list() {
    assert_eq!(PacResult::parse("wp8080:8080"), proxy("wp8080", 8080));
}

#[test]
fn malformed_proxy_without_port_is_direct() {
    assert_eq!(PacResult::parse("PROXY wp8080"), PacResult::Direct);
}

#[test]
fn scheme_prefixed_bare_entry() {
    assert_eq!(PacResult::parse("https=wp8080:8080"), proxy("wp8080", 8080));
}

#[test]
fn semicolon_separated_bare_list_takes_first() {
    assert_eq!(PacResult::parse("a:80;b:81"), proxy("a", 80));
}

#[test]
fn parse_keyword_is_case_insensitive_and_port_must_fit() {
    assert_eq!(PacResult::parse("proxy wp:3128"), proxy("wp", 3128));
    assert_eq!(PacResult::parse("PROXY wp:70000"), PacResult::Direct);
    assert_eq!(PacResult::parse("PROXY :8080"), PacResult::Direct);
    assert_eq!(PacResult::parse("HTTPS wp:443"), proxy("wp", 443));
    assert_eq!(PacResult::parse("wp:+81"), proxy("wp", 81));
}

fn pac_negotiate() -> PacConfig {
    let mut pac = PacConfig::default();
    pac.auth.mode = AuthMode::Negotiate;
    pac
}

#[test]
fn external_host_routes_to_upstream_with_pac_auth() {
    let backend = FakeBackend::classify("wp8080", 8080);
    let resolver = RouteResolver::new(pac_negotiate(), backend);
    let decision = resolver
        .route("https://external.example.com/")
        .expect("external route resolves");
    match decision {
        RouteDecision::Upstream(up) => {
            assert_eq!(up.host, "wp8080");
            assert_eq!(up.port, 8080);
            assert_eq!(up.auth.mode, AuthMode::Negotiate, "PAC auth must be applied");
        }
        other => panic!("expected Upstream, got {other:?}"),
    }
}

#[test]
fn internal_host_routes_direct_no_auth() {
    let backend = FakeBackend::classify("wp8080", 8080);
    let resolver = RouteResolver::new(pac_negotiate(), backend);
    let decision = resolver
        .route("http://internal.corp.local/")
        .expect("internal route resolves");
    assert_eq!(decision, RouteDecision::Direct);
}

#[test]
fn fail_policy_error_propagates() {
    let mut pac = pac_negotiate();
    pac.fail_policy = FailPolicy::Error;
    let resolver = RouteResolver::new(pac, FakeBackend::failing());
    let err = resolver
        .route("https://external.example.com/")
        .expect_err("fail policy error must propagate");
    assert!(matches!(err, RoutingError::Backend(_)));
}

#[test]
fn fail_policy_direct_falls_back() {
    let mut pac = pac_negotiate();
    pac.fail_policy = FailPolicy::Direct;
    let resolver = RouteResolver::new(pac, FakeBackend::failing());
    let decision = resolver
        .route("https://external.example.com/")
        .expect("fail policy direct falls back to DIRECT");
    assert_eq!(decision, RouteDecision::Direct);
}

#[test]
fn decide_applies_policy_to_a_given_lookup() {
    let resolver = RouteResolver::new(pac_negotiate(), FakeBackend::failing());
    assert_eq!(resolver.decide(Ok(PacResult::Direct)), Ok(RouteDecision::Direct));
    match resolver.decide(Ok(proxy("p", 1))) {
        Ok(RouteDecision::Upstream(up)) => {
            assert_eq!(up.host, "p");
            assert_eq!(up.port, 1);
            assert_eq!(up.auth.mode, AuthMode::Negotiate);
        }
        other => panic!("unexpected {other:?}"),
    }
    assert_eq!(
        resolver.decide(Err(RoutingError::UnsupportedPlatform)),
        Err(RoutingError::UnsupportedPlatform)
    );
}

#[test]
fn bare_list_is_also_separated_by_whitespace() {
    assert_eq!(PacResult::parse("x:abc wp8080:8080"), proxy("wp8080", 8080));
    assert_eq!(PacResult::parse("a:1 b:2"), proxy("a", 1));
    assert_eq!(PacResult::parse("nohost noport; c:3"), proxy("c", 3));
    assert_eq!(PacResult::parse("bad\tworse"), PacResult::Direct);
    assert_eq!(PacResult::parse("PROXY wp8080 b:2"), PacResult::Direct);
}
