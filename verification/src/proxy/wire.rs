//! HTTP/1.1 wire logic for the upstream-proxy conversation: when a response
//! head is complete, how it is parsed, how its body is framed, and how chunk
//! sizes are read. The socket reads themselves live with the caller.

use crate::text::{
    chars_of, contains_exec, contains_seq, find_char, find_char_from,
    lower_chars, lower_seq, parse_hex_usize, parse_hex_usize_exec, parse_u16, parse_u16_exec,
    parse_usize, parse_usize_exec, second_token, after_first_token_exec, first_token_exec,
    slice_chars, string_of, trim, trimmed,
};
use vstd::prelude::*;
use vstd::utf8::{decode_utf8, valid_utf8};

verus! {

/// Guard against a hostile/unbounded response head or chunk line.
pub const MAX_HEAD_BYTES: usize = 65536;

/// The text `String::from_utf8_lossy` makes of `bytes`.
pub uninterp spec fn utf8_lossy(bytes: Seq<u8>) -> Seq<char>;

/// `String::from_utf8_lossy(bytes)`, as an owned `String`.
///
/// Trusted: the result is named by `utf8_lossy`; as std documents, valid
/// UTF-8 is decoded unchanged.
#[verifier::external_body]
pub(crate) fn lossy_text(bytes: &[u8]) -> (s: String)
    ensures
        s@ == utf8_lossy(bytes@),
        valid_utf8(bytes@) ==> s@ == decode_utf8(bytes@),
{
    String::from_utf8_lossy(bytes).into_owned()
}

// ---------------------------------------------------------------------------
// Header lists
// ---------------------------------------------------------------------------

/// The name/value views of a header list.
pub open spec fn header_views(hs: Seq<(String, String)>) -> Seq<(Seq<char>, Seq<char>)> {
    hs.map_values(|p: (String, String)| (p.0@, p.1@))
}

/// The first index `>= i` whose header is named `name` (or `hs.len()`).
pub open spec fn header_index(hs: Seq<(Seq<char>, Seq<char>)>, name: Seq<char>, i: int) -> int
    decreases hs.len() - i,
{
    if 0 <= i < hs.len() && hs[i].0 != name {
        header_index(hs, name, i + 1)
    } else {
        i
    }
}

/// The value of the first header named `name`.
pub open spec fn header_value(hs: Seq<(Seq<char>, Seq<char>)>, name: Seq<char>) -> Option<Seq<char>> {
    let k = header_index(hs, name, 0);
    if 0 <= k < hs.len() {
        Some(hs[k].1)
    } else {
        None
    }
}

/// The value of the first header named `name`.
pub fn find_header<'a>(headers: &'a Vec<(String, String)>, name: &str) -> (r: Option<&'a String>)
    ensures
        match r {
            Some(v) => header_value(header_views(headers@), name@) == Some(v@),
            None => header_value(header_views(headers@), name@) is None,
        },
{
    let ghost hv = header_views(headers@);
    let wanted = chars_of(name);
    let mut i: usize = 0;
    while i < headers.len()
        invariant
            i <= headers@.len(),
            hv == header_views(headers@),
            wanted@ == name@,
            header_index(hv, name@, 0) == header_index(hv, name@, i as int),
        decreases headers.len() - i,
    {
        let key = chars_of(headers[i].0.as_str());
        if crate::text::chars_eq(&key, &wanted) {
            return Some(&headers[i].1);
        }
        i = i + 1;
    }
    None
}

/// The `Content-Length` value, if present and parseable.
pub open spec fn content_length_of(hs: Seq<(Seq<char>, Seq<char>)>) -> Option<usize> {
    match header_value(hs, "content-length"@) {
        Some(v) => parse_usize(v),
        None => None,
    }
}

/// Whether `Transfer-Encoding` names `chunked` (in any ASCII case).
pub open spec fn is_chunked_of(hs: Seq<(Seq<char>, Seq<char>)>) -> bool {
    match header_value(hs, "transfer-encoding"@) {
        Some(v) => contains_seq(lower_seq(v), "chunked"@),
        None => false,
    }
}

/// The `Content-Length` value, if present and parseable.
pub fn content_length(headers: &Vec<(String, String)>) -> (r: Option<usize>)
    ensures
        r == content_length_of(header_views(headers@)),
{
    match find_header(headers, "content-length") {
        Some(v) => {
            let chars = chars_of(v.as_str());
            parse_usize_exec(&chars)
        },
        None => None,
    }
}

/// Whether the body is chunked.
pub fn is_chunked(headers: &Vec<(String, String)>) -> (r: bool)
    ensures
        r == is_chunked_of(header_views(headers@)),
{
    match find_header(headers, "transfer-encoding") {
        Some(v) => {
            let chars = chars_of(v.as_str());
            let low = lower_chars(&chars);
            let word = chars_of("chunked");
            contains_exec(&low, &word)
        },
        None => false,
    }
}

/// How a response body is delimited.
#[derive(Debug, Clone, Copy, PartialEq, Eq, Structural)]
pub enum BodyFraming {
    /// Exactly this many bytes.
    Length(usize),
    /// Chunked transfer coding.
    Chunked,
    /// No body.
    Empty,
}

/// The framing rule: a parseable `Content-Length` wins, then chunked coding,
/// otherwise there is no body.
pub open spec fn framing_of(hs: Seq<(Seq<char>, Seq<char>)>) -> BodyFraming {
    match content_length_of(hs) {
        Some(n) => BodyFraming::Length(n),
        None => if is_chunked_of(hs) {
            BodyFraming::Chunked
        } else {
            BodyFraming::Empty
        },
    }
}

/// How the body of a response with these headers is delimited.
pub fn body_framing(headers: &Vec<(String, String)>) -> (r: BodyFraming)
    ensures
        r == framing_of(header_views(headers@)),
{
    match content_length(headers) {
        Some(n) => BodyFraming::Length(n),
        None => if is_chunked(headers) {
            BodyFraming::Chunked
        } else {
            BodyFraming::Empty
        },
    }
}

// ---------------------------------------------------------------------------
// Reading a head one byte at a time
// ---------------------------------------------------------------------------

/// Where a head being read byte by byte stands.
#[derive(Debug, Clone, Copy, PartialEq, Eq, Structural)]
pub enum HeadScan {
    /// The bytes end with the blank line `\r\n\r\n`.
    Complete,
    /// More than [`MAX_HEAD_BYTES`] without the terminator.
    TooLarge,
    /// Keep reading.
    NeedMore,
}

pub open spec fn ends_with_blank_line(b: Seq<u8>) -> bool {
    b.len() >= 4 && b.subrange(b.len() - 4, b.len() as int) == seq![13u8, 10u8, 13u8, 10u8]
}

/// The state of a head after the bytes `b` were read.
pub open spec fn head_scan_of(b: Seq<u8>) -> HeadScan {
    if ends_with_blank_line(b) {
        HeadScan::Complete
    } else if b.len() > MAX_HEAD_BYTES {
        HeadScan::TooLarge
    } else {
        HeadScan::NeedMore
    }
}

/// Whether the head read so far is complete, too large, or needs more bytes.
pub fn head_scan(buf: &Vec<u8>) -> (r: HeadScan)
    ensures
        r == head_scan_of(buf@),
{
    let n = buf.len();
    if n >= 4 && buf[n - 4] == 13 && buf[n - 3] == 10 && buf[n - 2] == 13 && buf[n - 1] == 10 {
        assert(buf@.subrange(n - 4, n as int) =~= seq![13u8, 10u8, 13u8, 10u8]);
        HeadScan::Complete
    } else {
        proof {
            if n >= 4 && buf@.subrange(n - 4, n as int) == seq![13u8, 10u8, 13u8, 10u8] {
                assert(buf@.subrange(n - 4, n as int)[0] == buf@[n - 4]);
                assert(buf@.subrange(n - 4, n as int)[1] == buf@[n - 3]);
                assert(buf@.subrange(n - 4, n as int)[2] == buf@[n - 2]);
                assert(buf@.subrange(n - 4, n as int)[3] == buf@[n - 1]);
            }
        }
        if n > MAX_HEAD_BYTES {
            HeadScan::TooLarge
        } else {
            HeadScan::NeedMore
        }
    }
}

/// Where a line being read byte by byte stands.
#[derive(Debug, Clone, Copy, PartialEq, Eq, Structural)]
pub enum LineScan {
    /// The bytes end with `\n`.
    Complete,
    /// More than [`MAX_HEAD_BYTES`] without a newline.
    TooLong,
    /// Keep reading.
    NeedMore,
}

/// The state of a line after the bytes `b` were read.
pub open spec fn line_scan_of(b: Seq<u8>) -> LineScan {
    if b.len() > 0 && b[b.len() - 1] == 10u8 {
        LineScan::Complete
    } else if b.len() > MAX_HEAD_BYTES {
        LineScan::TooLong
    } else {
        LineScan::NeedMore
    }
}

/// Whether the line read so far is complete, too long, or needs more bytes.
pub fn line_scan(buf: &Vec<u8>) -> (r: LineScan)
    ensures
        r == line_scan_of(buf@),
{
    let n = buf.len();
    if n > 0 && buf[n - 1] == 10 {
        LineScan::Complete
    } else if n > MAX_HEAD_BYTES {
        LineScan::TooLong
    } else {
        LineScan::NeedMore
    }
}

// ---------------------------------------------------------------------------
// Chunk sizes
// ---------------------------------------------------------------------------

/// The size field of a chunk-size line: the trimmed line up to the first `;`
/// (dropping chunk extensions), trimmed again, read as hexadecimal.
pub open spec fn chunk_size_of(line: Seq<char>) -> Option<usize> {
    let t = trim(line);
    parse_hex_usize(trim(t.subrange(0, find_char(t, 0, ';'))))
}

/// The chunk size a chunk-size line announces, if it is well formed.
pub fn chunk_size(line: &str) -> (r: Option<usize>)
    ensures
        r == chunk_size_of(line@),
{
    let chars = chars_of(line);
    let t = trimmed(&chars);
    let end = find_char_from(&t, 0, ';');
    let field = slice_chars(&t, 0, end);
    let field = trimmed(&field);
    parse_hex_usize_exec(&field)
}

// ---------------------------------------------------------------------------
// Parsing a head
// ---------------------------------------------------------------------------

/// The first index `>= i` where `\r\n` starts (or `t.len()`).
pub open spec fn next_crlf(t: Seq<char>, i: int) -> int
    decreases t.len() - i,
{
    if 0 <= i && i + 1 < t.len() {
        if t[i] == '\r' && t[i + 1] == '\n' {
            i
        } else {
            next_crlf(t, i + 1)
        }
    } else {
        t.len() as int
    }
}

pub proof fn lemma_next_crlf_bounds(t: Seq<char>, i: int)
    requires
        0 <= i <= t.len(),
    ensures
        i <= next_crlf(t, i) <= t.len(),
        next_crlf(t, i) < t.len() ==> next_crlf(t, i) + 1 < t.len(),
    decreases t.len() - i,
{
    if i + 1 < t.len() && !(t[i] == '\r' && t[i + 1] == '\n') {
        lemma_next_crlf_bounds(t, i + 1);
    }
}

/// The status of a status line: its second whitespace token as a `u16`, or 0.
pub open spec fn status_of_line(line: Seq<char>) -> u16 {
    match second_token(line) {
        Some(tok) => match parse_u16(tok) {
            Some(s) => s,
            None => 0,
        },
        None => 0,
    }
}

/// A header line's `(lower-cased trimmed name, trimmed value)`, split at the
/// first `:`; empty lines and lines without a `:` carry no header.
pub open spec fn header_of_line(line: Seq<char>) -> Option<(Seq<char>, Seq<char>)> {
    let c = find_char(line, 0, ':');
    if line.len() > 0 && c < line.len() {
        Some((lower_seq(trim(line.subrange(0, c))), trim(line.subrange(c + 1, line.len() as int))))
    } else {
        None
    }
}

/// The headers of the `\r\n`-separated lines from index `i` on.
pub open spec fn headers_from(t: Seq<char>, i: int) -> Seq<(Seq<char>, Seq<char>)>
    decreases t.len() - i,
{
    if 0 <= i <= t.len() {
        let j = next_crlf(t, i);
        let rest = if j < t.len() {
            proof {
                lemma_next_crlf_bounds(t, i);
            }
            headers_from(t, j + 2)
        } else {
            Seq::empty()
        };
        match header_of_line(t.subrange(i, j)) {
            Some(h) => seq![h] + rest,
            None => rest,
        }
    } else {
        Seq::empty()
    }
}

/// The status and headers of a response head's text: the status comes from
/// the first line, the headers from the lines after it.
pub open spec fn head_of_text(t: Seq<char>) -> (u16, Seq<(Seq<char>, Seq<char>)>) {
    let j = next_crlf(t, 0);
    (
        status_of_line(t.subrange(0, j)),
        if j < t.len() {
            headers_from(t, j + 2)
        } else {
            Seq::empty()
        },
    )
}

fn next_crlf_exec(t: &Vec<char>, i: usize) -> (r: usize)
    requires
        i <= t.len(),
    ensures
        r == next_crlf(t@, i as int),
        i <= r <= t.len(),
        r < t.len() ==> r + 1 < t.len(),
{
    proof {
        lemma_next_crlf_bounds(t@, i as int);
    }
    let mut j = i;
    while j < t.len() && t.len() - j > 1
        invariant
            i <= j <= t.len(),
            next_crlf(t@, i as int) == next_crlf(t@, j as int),
        decreases t.len() - j,
    {
        if t[j] == '\r' && t[j + 1] == '\n' {
            return j;
        }
        j = j + 1;
    }
    t.len()
}

fn status_of_line_exec(line: &Vec<char>) -> (s: u16)
    ensures
        s == status_of_line(line@),
{
    let rest = after_first_token_exec(line);
    match first_token_exec(&rest) {
        Some(tok) => match parse_u16_exec(&tok) {
            Some(s) => s,
            None => 0,
        },
        None => 0,
    }
}

fn header_of_line_exec(line: &Vec<char>) -> (r: Option<(String, String)>)
    ensures
        match r {
            Some(p) => header_of_line(line@) == Some((p.0@, p.1@)),
            None => header_of_line(line@) is None,
        },
{
    let c = find_char_from(line, 0, ':');
    if line.len() > 0 && c < line.len() {
        let name = slice_chars(line, 0, c);
        let name = trimmed(&name);
        let name = lower_chars(&name);
        let value = slice_chars(line, c + 1, line.len());
        let value = trimmed(&value);
        Some((string_of(&name), string_of(&value)))
    } else {
        None
    }
}

/// Parse a response head: the status code (0 when the status line carries
/// none) and the lower-cased header name/value pairs.
pub fn parse_head(buf: &[u8]) -> (r: (u16, Vec<(String, String)>))
    ensures
        (r.0, header_views(r.1@)) == head_of_text(utf8_lossy(buf@)),
        valid_utf8(buf@) ==> (r.0, header_views(r.1@)) == head_of_text(decode_utf8(buf@)),
{
    let text = lossy_text(buf);
    let t = chars_of(text.as_str());
    let j0 = next_crlf_exec(&t, 0);
    let first = slice_chars(&t, 0, j0);
    let status = status_of_line_exec(&first);
    let mut headers: Vec<(String, String)> = Vec::new();
    if j0 >= t.len() {
        assert(header_views(headers@) =~= Seq::<(Seq<char>, Seq<char>)>::empty());
        return (status, headers);
    }
    let mut i = j0 + 2;
    assert(header_views(headers@) + headers_from(t@, i as int) =~= headers_from(t@, i as int));
    loop
        invariant
            i <= t.len(),
            t@ == utf8_lossy(buf@),
            valid_utf8(buf@) ==> utf8_lossy(buf@) == decode_utf8(buf@),
            j0 == next_crlf(t@, 0),
            j0 < t@.len(),
            status == status_of_line(t@.subrange(0, j0 as int)),
            header_views(headers@) + headers_from(t@, i as int) == headers_from(t@, j0 + 2),
        decreases t.len() - i,
    {
        let j = next_crlf_exec(&t, i);
        let line = slice_chars(&t, i, j);
        let ghost before = header_views(headers@);
        let ghost rest = if j < t@.len() {
            headers_from(t@, j + 2)
        } else {
            Seq::empty()
        };
        assert(headers_from(t@, i as int) == match header_of_line(t@.subrange(i as int, j as int)) {
            Some(h) => seq![h] + rest,
            None => rest,
        });
        match header_of_line_exec(&line) {
            Some(p) => {
                let ghost pv = (p.0@, p.1@);
                headers.push(p);
                assert(header_views(headers@) =~= before.push(pv));
                assert(before.push(pv) + rest =~= before + (seq![pv] + rest));
            },
            None => {},
        }
        assert(header_views(headers@) + rest == headers_from(t@, j0 + 2));
        if j >= t.len() {
            assert(rest =~= Seq::<(Seq<char>, Seq<char>)>::empty());
            assert(header_views(headers@) + rest =~= header_views(headers@));
            return (status, headers);
        }
        i = j + 2;
    }
}


/// A header line splits at its first `:`: the name is the lower-cased,
/// trimmed text before it (which holds no `:`), and the value is the trimmed
/// rest, whatever colons it holds.
pub proof fn law_header_splits_at_first_colon(name: Seq<char>, value: Seq<char>)
    requires
        forall|m: int| 0 <= m < name.len() ==> name[m] != ':',
    ensures
        header_of_line(name + seq![':'] + value) == Some((lower_seq(trim(name)), trim(value))),
{
    let line = name + seq![':'] + value;
    assert forall|m: int| 0 <= m < name.len() implies line[m] != ':' by {
        assert(line[m] == name[m]);
    }
    assert(line[name.len() as int] == ':');
    crate::text::lemma_find_char_at(line, 0, ':', name.len() as int);
    assert(line.subrange(0, name.len() as int) =~= name);
    assert(line.subrange(name.len() as int + 1, line.len() as int) =~= value);
}

/// A line without a `:` (or an empty line) carries no header.
pub proof fn law_line_without_colon_is_no_header(line: Seq<char>)
    requires
        forall|m: int| 0 <= m < line.len() ==> line[m] != ':',
    ensures
        header_of_line(line) is None,
{
    crate::text::lemma_find_char_bounds(line, 0, ':');
}


proof fn lemma_next_crlf_at(t: Seq<char>, i: int, k: int)
    requires
        0 <= i <= k,
        k + 1 < t.len(),
        t[k] == '\r',
        t[k + 1] == '\n',
        forall|m: int| i <= m < k ==> t[m] != '\r',
    ensures
        next_crlf(t, i) == k,
    decreases k - i,
{
    if i < k {
        lemma_next_crlf_at(t, i + 1, k);
    }
}

/// A response head of a status line and one header line, ended by the blank
/// line, carries exactly that header, split at its first `:`.
pub proof fn law_head_with_one_header(status: Seq<char>, name: Seq<char>, value: Seq<char>)
    requires
        forall|m: int| 0 <= m < status.len() ==> status[m] != '\r',
        forall|m: int| 0 <= m < name.len() ==> name[m] != '\r' && name[m] != ':',
        forall|m: int| 0 <= m < value.len() ==> value[m] != '\r',
    ensures
        head_of_text(
            status + seq!['\r', '\n'] + name + seq![':'] + value + seq!['\r', '\n', '\r', '\n'],
        ).1 == seq![(lower_seq(trim(name)), trim(value))],
{
    let line = name + seq![':'] + value;
    let t = status + seq!['\r', '\n'] + line + seq!['\r', '\n', '\r', '\n'];
    assert(t =~= status + seq!['\r', '\n'] + name + seq![':'] + value + seq!['\r', '\n', '\r', '\n']);
    let s = status.len() as int;
    let a = s + 2;
    let b = a + line.len();
    assert(t.len() == b + 4);
    assert forall|m: int| 0 <= m < s implies t[m] != '\r' by {
        assert(t[m] == status[m]);
    }
    assert(t[s] == '\r' && t[s + 1] == '\n');
    lemma_next_crlf_at(t, 0, s);
    assert forall|m: int| a <= m < b implies t[m] != '\r' by {
        assert(t[m] == line[m - a]);
        if m - a < name.len() {
            assert(line[m - a] == name[m - a]);
        } else if m - a > name.len() {
            assert(line[m - a] == value[m - a - name.len() - 1]);
        }
    }
    assert(t[b] == '\r' && t[b + 1] == '\n');
    lemma_next_crlf_at(t, a, b);
    assert(t[b + 2] == '\r' && t[b + 3] == '\n');
    lemma_next_crlf_at(t, b + 2, b + 2);
    assert(next_crlf(t, b + 4) == b + 4);
    assert(t.subrange(a, b) =~= line);
    law_header_splits_at_first_colon(name, value);
    assert(t.subrange(b + 2, b + 2) =~= Seq::<char>::empty());
    assert(t.subrange(b + 4, b + 4) =~= Seq::<char>::empty());
    assert(header_of_line(Seq::<char>::empty()) is None);
    assert(headers_from(t, b + 4) =~= Seq::<(Seq<char>, Seq<char>)>::empty());
    assert(headers_from(t, b + 2) =~= Seq::<(Seq<char>, Seq<char>)>::empty());
    assert(headers_from(t, a) =~= seq![(lower_seq(trim(name)), trim(value))]);
}

} // verus!
