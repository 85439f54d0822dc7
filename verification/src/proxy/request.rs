//! Request heads the proxy writes to an upstream proxy, the response headers
//! it copies back, and the addresses it derives from a request authority.

use crate::proxy::wire::header_views;
use crate::text::{chars_eq, chars_of, decimal, lower_chars, lower_seq, push_char, push_decimal};
use vstd::prelude::*;
use vstd::string::StringExecFns;

verus! {

/// The `Proxy-Authorization` line for an optional header value.
pub open spec fn auth_line(auth: Option<Seq<char>>) -> Seq<char> {
    match auth {
        Some(v) => "Proxy-Authorization: "@ + v + "\r\n"@,
        None => Seq::empty(),
    }
}

/// The head of a `CONNECT` to `target`, with `Proxy-Connection: keep-alive`
/// (as browsers send it) and the optional auth line.
pub open spec fn connect_request_text(target: Seq<char>, auth: Option<Seq<char>>) -> Seq<char> {
    "CONNECT "@ + target + " HTTP/1.1\r\nHost: "@ + target + "\r\nProxy-Connection: keep-alive\r\n"@
        + auth_line(auth) + "\r\n"@
}

pub open spec fn opt_str_view(a: Option<&str>) -> Option<Seq<char>> {
    match a {
        Some(s) => Some(s@),
        None => None,
    }
}

fn push_auth_line(head: &mut String, auth_header: Option<&str>)
    ensures
        final(head)@ == old(head)@ + auth_line(opt_str_view(auth_header)),
{
    match auth_header {
        Some(value) => {
            head.append("Proxy-Authorization: ");
            head.append(value);
            head.append("\r\n");
        },
        None => {},
    }
    assert(final(head)@ =~= old(head)@ + auth_line(opt_str_view(auth_header)));
}

/// The `CONNECT` request head for `target`, optionally authorized.
pub fn connect_request(target: &str, auth_header: Option<&str>) -> (head: String)
    ensures
        head@ == connect_request_text(target@, opt_str_view(auth_header)),
{
    let mut head = String::new();
    head.append("CONNECT ");
    head.append(target);
    head.append(" HTTP/1.1\r\nHost: ");
    head.append(target);
    head.append("\r\nProxy-Connection: keep-alive\r\n");
    push_auth_line(&mut head, auth_header);
    head.append("\r\n");
    assert(head@ =~= connect_request_text(target@, opt_str_view(auth_header)));
    head
}

/// Headers the forwarder re-derives itself (framing, auth, hop-by-hop).
pub open spec fn is_rederived(name: Seq<char>) -> bool {
    let n = lower_seq(name);
    ||| n == "content-length"@
    ||| n == "transfer-encoding"@
    ||| n == "connection"@
    ||| n == "proxy-connection"@
    ||| n == "proxy-authorization"@
}

/// Framing headers the response rebuild re-derives from the buffered body.
pub open spec fn is_framing(name: Seq<char>) -> bool {
    ||| name == "content-length"@
    ||| name == "transfer-encoding"@
    ||| name == "connection"@
}

/// The forwarded header lines, in order, without the re-derived ones.
pub open spec fn forwarded_lines(hs: Seq<(Seq<char>, Seq<char>)>) -> Seq<char>
    decreases hs.len(),
{
    if hs.len() == 0 {
        Seq::empty()
    } else {
        let (name, value) = hs.last();
        forwarded_lines(hs.drop_last()) + if is_rederived(name) {
            Seq::empty()
        } else {
            name + ": "@ + value + "\r\n"@
        }
    }
}

/// The head of an absolute-form request forwarded to an upstream proxy: the
/// request line, the client's headers minus the re-derived ones, then
/// `Content-Length`, `Connection: keep-alive` and the optional auth line.
pub open spec fn forward_head_text(
    method: Seq<char>,
    uri: Seq<char>,
    hs: Seq<(Seq<char>, Seq<char>)>,
    body_len: nat,
    auth: Option<Seq<char>>,
) -> Seq<char> {
    method + " "@ + uri + " HTTP/1.1\r\n"@ + forwarded_lines(hs) + "Content-Length: "@ + decimal(
        body_len,
    ) + "\r\n"@ + "Connection: keep-alive\r\n"@ + auth_line(auth) + "\r\n"@
}

fn one_of(n: &Vec<char>, word: &str) -> (r: bool)
    ensures
        r == (n@ == word@),
{
    let w = chars_of(word);
    chars_eq(n, &w)
}

fn rederived(name: &String) -> (r: bool)
    ensures
        r == is_rederived(name@),
{
    let chars = chars_of(name.as_str());
    let n = lower_chars(&chars);
    one_of(&n, "content-length") || one_of(&n, "transfer-encoding") || one_of(&n, "connection")
        || one_of(&n, "proxy-connection") || one_of(&n, "proxy-authorization")
}

/// The head of a request forwarded to an upstream proxy (absolute-form URI),
/// announcing a body of `body_len` bytes.
pub fn forward_request_head(
    method: &str,
    uri: &str,
    headers: &Vec<(String, String)>,
    body_len: usize,
    auth_header: Option<&str>,
) -> (head: String)
    ensures
        head@ == forward_head_text(
            method@,
            uri@,
            header_views(headers@),
            body_len as nat,
            opt_str_view(auth_header),
        ),
{
    let ghost hv = header_views(headers@);
    let mut head = String::new();
    head.append(method);
    head.append(" ");
    head.append(uri);
    head.append(" HTTP/1.1\r\n");
    let ghost start = head@;
    let mut i: usize = 0;
    while i < headers.len()
        invariant
            i <= headers@.len(),
            hv == header_views(headers@),
            head@ == start + forwarded_lines(hv.take(i as int)),
        decreases headers.len() - i,
    {
        let (name, value) = &headers[i];
        assert(hv.take(i + 1).drop_last() =~= hv.take(i as int));
        assert(hv.take(i + 1).last() == (name@, value@));
        if !rederived(name) {
            head.append(name.as_str());
            head.append(": ");
            head.append(value.as_str());
            head.append("\r\n");
        }
        assert(head@ =~= start + forwarded_lines(hv.take(i + 1)));
        i = i + 1;
    }
    assert(hv.take(headers@.len() as int) =~= hv);
    head.append("Content-Length: ");
    push_decimal(&mut head, body_len as u64);
    head.append("\r\n");
    head.append("Connection: keep-alive\r\n");
    push_auth_line(&mut head, auth_header);
    head.append("\r\n");
    assert(head@ =~= forward_head_text(method@, uri@, hv, body_len as nat, opt_str_view(auth_header)));
    head
}

/// The headers copied onto the rebuilt response: all but the framing ones,
/// in order.
pub open spec fn copied_headers(hs: Seq<(Seq<char>, Seq<char>)>) -> Seq<(Seq<char>, Seq<char>)> {
    hs.filter(|h: (Seq<char>, Seq<char>)| !is_framing(h.0))
}

/// The response headers to copy onto the rebuilt response: framing is
/// re-derived from the buffered body.
pub fn response_headers(headers: &Vec<(String, String)>) -> (r: Vec<(String, String)>)
    ensures
        header_views(r@) == copied_headers(header_views(headers@)),
{
    let ghost hv = header_views(headers@);
    let mut r: Vec<(String, String)> = Vec::new();
    let mut i: usize = 0;
    while i < headers.len()
        invariant
            i <= headers@.len(),
            hv == header_views(headers@),
            header_views(r@) == copied_headers(hv.take(i as int)),
        decreases headers.len() - i,
    {
        let (name, value) = &headers[i];
        let n = chars_of(name.as_str());
        let framing = one_of(&n, "content-length") || one_of(&n, "transfer-encoding") || one_of(
            &n,
            "connection",
        );
        let ghost before = r@;
        assert(hv.take(i + 1).drop_last() =~= hv.take(i as int));
        reveal_with_fuel(Seq::filter, 1);
        if !framing {
            r.push((name.clone(), value.clone()));
            assert(header_views(r@) =~= header_views(before).push((name@, value@)));
        }
        assert(header_views(r@) =~= copied_headers(hv.take(i + 1)));
        i = i + 1;
    }
    assert(hv.take(headers@.len() as int) =~= hv);
    r
}

/// `host:port` for a request authority, with HTTP's default port 80.
pub open spec fn authority_text(host: Seq<char>, port: Option<u16>) -> Seq<char> {
    host + seq![':'] + decimal(
        match port {
            Some(p) => p as nat,
            None => 80,
        },
    )
}

/// The `host:port` a request authority names (default port 80).
pub fn authority_target(host: &str, port: Option<u16>) -> (t: String)
    ensures
        t@ == authority_text(host@, port),
{
    let mut t = String::from_str(host);
    push_char(&mut t, ':');
    let p: u16 = match port {
        Some(p) => p,
        None => 80,
    };
    push_decimal(&mut t, p as u64);
    assert(t@ =~= authority_text(host@, port));
    t
}

/// The origin-form target of a request: its path and query, or `/`.
pub fn origin_form(path_and_query: Option<&str>) -> (t: String)
    ensures
        t@ == match path_and_query {
            Some(pq) => pq@,
            None => "/"@,
        },
{
    match path_and_query {
        Some(pq) => String::from_str(pq),
        None => String::from_str("/"),
    }
}

} // verus!
