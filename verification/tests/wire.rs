use zicade::proxy::request::{
    authority_target, connect_request, forward_request_head, origin_form, response_headers,
};
use zicade::proxy::wire::{
    body_framing, chunk_size, content_length, find_header, head_scan, is_chunked, line_scan,
    parse_head, BodyFraming, HeadScan, LineScan, MAX_HEAD_BYTES,
};

fn hs(pairs: &[(&str, &str)]) -> Vec<(String, String)> {
    pairs.iter().map(|(n, v)| (n.to_string(), v.to_string())).collect()
}

#[test]
fn parse_head_reads_status_and_lowercased_headers() {
    let (status, headers) = parse_head(
        b"HTTP/1.1 407 Proxy Authentication Required\r\nProxy-Authenticate:  Negotiate abc \r\nContent-Length: 0\r\n\r\n",
    );
    assert_eq!(status, 407);
    assert_eq!(
        headers,
        hs(&[("proxy-authenticate", "Negotiate abc"), ("content-length", "0")])
    );
}

#[test]
fn parse_head_without_status_code_is_zero() {
    let (status, headers) = parse_head(b"garbage\r\nX: 1\r\nno colon here\r\n\r\n");
    assert_eq!(status, 0);
    assert_eq!(headers, hs(&[("x", "1")]));
    let (status, headers) = parse_head(b"HTTP/1.1 200");
    assert_eq!(status, 200);
    assert!(headers.is_empty());
}

#[test]
fn parse_head_replaces_invalid_utf8() {
    let (status, headers) = parse_head(b"HTTP/1.1 200 OK\r\nX-Bin: a\xffb\r\n\r\n");
    assert_eq!(status, 200);
    assert_eq!(headers, hs(&[("x-bin", "a\u{fffd}b")]));
}

#[test]
fn find_header_takes_the_first_exact_match() {
    let h = hs(&[("a", "1"), ("b", "2"), ("a", "3")]);
    assert_eq!(find_header(&h, "a").map(|s| s.as_str()), Some("1"));
    assert_eq!(find_header(&h, "A"), None);
    assert_eq!(find_header(&h, "c"), None);
}

#[test]
fn framing_prefers_content_length_then_chunked() {
    assert_eq!(body_framing(&hs(&[("content-length", "12")])), BodyFraming::Length(12));
    assert_eq!(
        body_framing(&hs(&[("transfer-encoding", "gzip, Chunked"), ("content-length", "3")])),
        BodyFraming::Length(3)
    );
    assert_eq!(body_framing(&hs(&[("transfer-encoding", "gzip, Chunked")])), BodyFraming::Chunked);
    assert_eq!(body_framing(&hs(&[("content-length", "x")])), BodyFraming::Empty);
    assert_eq!(body_framing(&hs(&[])), BodyFraming::Empty);
    assert_eq!(content_length(&hs(&[("content-length", "007")])), Some(7));
    assert!(!is_chunked(&hs(&[("transfer-encoding", "gzip")])));
}

#[test]
fn chunk_size_reads_hex_and_drops_extensions() {
    assert_eq!(chunk_size("1a\r\n"), Some(26));
    assert_eq!(chunk_size("FF;name=value\r\n"), Some(255));
    assert_eq!(chunk_size("0\r\n"), Some(0));
    assert_eq!(chunk_size(" 10 ; ext\r\n"), Some(16));
    assert_eq!(chunk_size("zz\r\n"), None);
    assert_eq!(chunk_size("\r\n"), None);
}

#[test]
fn head_and_line_scans() {
    assert_eq!(head_scan(&b"HTTP/1.1 200 OK\r\n\r\n".to_vec()), HeadScan::Complete);
    assert_eq!(head_scan(&b"HTTP/1.1 200 OK\r\n".to_vec()), HeadScan::NeedMore);
    assert_eq!(head_scan(&vec![b'a'; MAX_HEAD_BYTES + 1]), HeadScan::TooLarge);
    assert_eq!(head_scan(&vec![b'a'; MAX_HEAD_BYTES]), HeadScan::NeedMore);
    assert_eq!(line_scan(&b"5\r\n".to_vec()), LineScan::Complete);
    assert_eq!(line_scan(&b"5\r".to_vec()), LineScan::NeedMore);
    assert_eq!(line_scan(&vec![b'a'; MAX_HEAD_BYTES + 1]), LineScan::TooLong);
}

#[test]
fn connect_request_head_is_exact() {
    assert_eq!(
        connect_request("example.com:443", None),
        "CONNECT example.com:443 HTTP/1.1\r\nHost: example.com:443\r\nProxy-Connection: keep-alive\r\n\r\n"
    );
    assert_eq!(
        connect_request("example.com:443", Some("Negotiate abc")),
        "CONNECT example.com:443 HTTP/1.1\r\nHost: example.com:443\r\nProxy-Connection: keep-alive\r\nProxy-Authorization: Negotiate abc\r\n\r\n"
    );
}

#[test]
fn forward_head_drops_rederived_headers() {
    let headers = hs(&[
        ("Host", "h"),
        ("Content-Length", "5"),
        ("X-A", "1"),
        ("Proxy-Authorization", "old"),
        ("transfer-encoding", "chunked"),
        ("Connection", "close"),
        ("Proxy-Connection", "close"),
    ]);
    assert_eq!(
        forward_request_head("POST", "http://h/p", &headers, 5, Some("Basic x")),
        "POST http://h/p HTTP/1.1\r\nHost: h\r\nX-A: 1\r\nContent-Length: 5\r\nConnection: keep-alive\r\nProxy-Authorization: Basic x\r\n\r\n"
    );
    assert_eq!(
        forward_request_head("GET", "http://h/", &hs(&[]), 0, None),
        "GET http://h/ HTTP/1.1\r\nContent-Length: 0\r\nConnection: keep-alive\r\n\r\n"
    );
}

#[test]
fn response_headers_drop_framing_only() {
    let headers = hs(&[
        ("content-length", "3"),
        ("x-a", "1"),
        ("transfer-encoding", "chunked"),
        ("proxy-authenticate", "Negotiate"),
        ("connection", "close"),
    ]);
    assert_eq!(
        response_headers(&headers),
        hs(&[("x-a", "1"), ("proxy-authenticate", "Negotiate")])
    );
}

#[test]
fn authority_and_origin_forms() {
    assert_eq!(authority_target("example.com", None), "example.com:80");
    assert_eq!(authority_target("example.com", Some(8080)), "example.com:8080");
    assert_eq!(authority_target("h", Some(0)), "h:0");
    assert_eq!(origin_form(Some("/a?b=c")), "/a?b=c");
    assert_eq!(origin_form(None), "/");
}
