use base64::engine::general_purpose::STANDARD;
use base64::Engine;
use zicade::auth::header::{
    build_basic_authorization, build_proxy_authorization, parse_proxy_authenticate, NegotiateOffer,
};

#[test]
fn parses_bare_offer() {
    assert_eq!(parse_proxy_authenticate("Negotiate"), NegotiateOffer::Offered);
}

#[test]
fn parses_challenge_token() {
    let tok = b"\x01\x02\x03challenge-bytes";
    let header = format!("Negotiate {}", STANDARD.encode(tok));
    match parse_proxy_authenticate(&header) {
        NegotiateOffer::Challenge(bytes) => assert_eq!(bytes, tok),
        other => panic!("expected Challenge, got {other:?}"),
    }
}

#[test]
fn scheme_match_is_case_insensitive() {
    assert_eq!(parse_proxy_authenticate("negotiate"), NegotiateOffer::Offered);
}

#[test]
fn non_negotiate_scheme_is_not_offered() {
    assert_eq!(
        parse_proxy_authenticate("Basic realm=\"x\""),
        NegotiateOffer::NotOffered
    );
}

#[test]
fn builds_basic_authorization_known_vector() {
    assert_eq!(
        build_basic_authorization("Aladdin", "open sesame"),
        "Basic QWxhZGRpbjpvcGVuIHNlc2FtZQ=="
    );
}

#[test]
fn builds_basic_authorization_allows_empty_password() {
    let header = build_basic_authorization("user", "");
    assert_eq!(header, format!("Basic {}", STANDARD.encode("user:")));
}

#[test]
fn build_then_parse_round_trips() {
    let tok = b"hello-token-bytes";
    let header = build_proxy_authorization(tok);
    assert_eq!(header, format!("Negotiate {}", STANDARD.encode(tok)));
    match parse_proxy_authenticate(&header) {
        NegotiateOffer::Challenge(bytes) => assert_eq!(bytes, tok),
        other => panic!("expected Challenge, got {other:?}"),
    }
}

#[test]
fn malformed_token_is_a_bare_offer() {
    assert_eq!(parse_proxy_authenticate("Negotiate !!!not-base64"), NegotiateOffer::Offered);
    assert_eq!(parse_proxy_authenticate("  Negotiate    "), NegotiateOffer::Offered);
}

#[test]
fn negotiate_prefix_of_a_longer_scheme_is_not_offered() {
    assert_eq!(parse_proxy_authenticate("NegotiateX abc"), NegotiateOffer::NotOffered);
    assert_eq!(parse_proxy_authenticate(""), NegotiateOffer::NotOffered);
}

#[test]
fn empty_token_encodes_to_bare_scheme_and_space() {
    assert_eq!(build_proxy_authorization(b""), "Negotiate ");
    assert_eq!(build_proxy_authorization(b"abc"), "Negotiate YWJj");
}

#[test]
fn base64_uses_the_standard_padded_alphabet() {
    assert_eq!(build_proxy_authorization(&[0xfb, 0xff]), "Negotiate +/8=");
    assert_eq!(build_basic_authorization("user", ""), "Basic dXNlcjo=");
    match parse_proxy_authenticate("Negotiate +/8=") {
        NegotiateOffer::Challenge(bytes) => assert_eq!(bytes, vec![0xfb, 0xff]),
        other => panic!("expected Challenge, got {other:?}"),
    }
}
