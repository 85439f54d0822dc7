//! PAC result parsing.
//!
//! Parses a proxy string into a structured [`PacResult`]. Two related wire
//! formats are accepted:
//!
//! * the classic PAC `FindProxyForURL` return value: `"DIRECT"`,
//!   `"PROXY host:port"`, `"PROXY a:1; DIRECT"`, `"SOCKS h:1080"`;
//! * the bare proxy list WinHTTP hands back: `"host:port"`, optionally
//!   scheme-prefixed (`"https=host:port"`), separated by `;` or whitespace.
//!
//! Rule: return the FIRST usable entry. `DIRECT` wins if seen first; the first
//! usable `PROXY`/bare `host:port` wins; `SOCKS` and malformed entries are
//! skipped. Empty input, or nothing usable, yields [`PacResult::Direct`].

use crate::text::{
    after_first_token_exec, find_ws, find_ws_from, lemma_find_ws_bounds, lemma_skip_ws_bounds,
    skip_ws, skip_ws_from, chars_eq, chars_of, first_token, first_token_exec, parse_u16,
    parse_u16_exec, rfind_char, rfind_char_exec, second_token, slice_chars, starts_with_exec,
    string_of, trim, trimmed, upper_chars, upper_seq,
};
use vstd::prelude::*;

verus! {

/// A parsed PAC/WinHTTP proxy decision.
#[derive(Debug, Clone, PartialEq, Eq)]
pub enum PacResult {
    /// Connect straight to the origin; no upstream proxy.
    Direct,
    /// Route through the given upstream proxy.
    Proxy {
        /// Proxy host (no scheme, no port).
        host: String,
        /// Proxy port.
        port: u16,
    },
}

/// The abstract value of a [`PacResult`].
pub enum PacView {
    Direct,
    Proxy(Seq<char>, u16),
}

impl View for PacResult {
    type V = PacView;

    open spec fn view(&self) -> PacView {
        match self {
            PacResult::Direct => PacView::Direct,
            PacResult::Proxy { host, port } => PacView::Proxy(host@, *port),
        }
    }
}

pub open spec fn opt_view(r: Option<PacResult>) -> Option<PacView> {
    match r {
        Some(p) => Some(p@),
        None => None,
    }
}

/// An entry separator.
pub open spec fn is_sep(c: char) -> bool {
    c == ';' || c == '\n'
}

/// The first separator index `>= i` (or `s.len()`).
pub open spec fn next_sep(s: Seq<char>, i: int) -> int
    decreases s.len() - i,
{
    if 0 <= i < s.len() && !is_sep(s[i]) {
        next_sep(s, i + 1)
    } else {
        i
    }
}

pub proof fn lemma_next_sep_bounds(s: Seq<char>, i: int)
    requires
        0 <= i <= s.len(),
    ensures
        i <= next_sep(s, i) <= s.len(),
    decreases s.len() - i,
{
    if i < s.len() && !is_sep(s[i]) {
        lemma_next_sep_bounds(s, i + 1);
    }
}

pub open spec fn word_direct() -> Seq<char> {
    seq!['D', 'I', 'R', 'E', 'C', 'T']
}

pub open spec fn word_proxy() -> Seq<char> {
    seq!['P', 'R', 'O', 'X', 'Y']
}

pub open spec fn word_socks() -> Seq<char> {
    seq!['S', 'O', 'C', 'K', 'S']
}

/// A `host:port` token, tolerating a leading `scheme=` prefix: the address is
/// what follows the last `=`, split at its last `:`; the host must be non-empty
/// and the trimmed port a `u16`.
pub open spec fn addr_of(token: Seq<char>) -> Option<PacView> {
    let addr = token.subrange(rfind_char(token, '=') + 1, token.len() as int);
    let c = rfind_char(addr, ':');
    if c < 0 {
        None
    } else {
        let host = addr.subrange(0, c);
        match parse_u16(trim(addr.subrange(c + 1, addr.len() as int))) {
            Some(port) => if host.len() == 0 {
                None
            } else {
                Some(PacView::Proxy(host, port))
            },
            None => None,
        }
    }
}

/// The first whitespace-separated token of `t` from index `i` on that is an
/// address: a bare proxy list separates its entries by whitespace too.
pub open spec fn bare_from(t: Seq<char>, i: int) -> Option<PacView>
    decreases t.len() - i,
{
    if 0 <= i <= t.len() {
        let a = skip_ws(t, i);
        if a < t.len() {
            let b = find_ws(t, a);
            match addr_of(t.subrange(a, b)) {
                Some(r) => Some(r),
                None => {
                    proof {
                        lemma_skip_ws_bounds(t, i);
                        lemma_find_ws_bounds(t, a);
                    }
                    bare_from(t, b)
                },
            }
        } else {
            None
        }
    } else {
        None
    }
}

/// What one entry decides, or `None` when it is skipped: an empty entry, a
/// `SOCKS` entry, a malformed `PROXY` entry, or a bare list none of whose
/// whitespace-separated tokens is an address.
pub open spec fn entry_result(e: Seq<char>) -> Option<PacView> {
    let t = trim(e);
    match first_token(t) {
        None => None,
        Some(keyword) => {
            let up = upper_seq(keyword);
            if up == word_direct() {
                Some(PacView::Direct)
            } else if up == word_proxy() {
                match second_token(t) {
                    Some(a) => addr_of(a),
                    None => None,
                }
            } else if up.len() >= 5 && up.subrange(0, 5) == word_socks() {
                None
            } else {
                bare_from(t, 0)
            }
        },
    }
}

/// The decision of the entries from index `i` on: the first entry that
/// decides, or `Direct` when none does.
pub open spec fn parse_from(raw: Seq<char>, i: int) -> PacView
    decreases raw.len() - i,
{
    if 0 <= i <= raw.len() {
        let j = next_sep(raw, i);
        match entry_result(raw.subrange(i, j)) {
            Some(r) => r,
            None => if j < raw.len() {
                proof {
                    lemma_next_sep_bounds(raw, i);
                }
                parse_from(raw, j + 1)
            } else {
                PacView::Direct
            },
        }
    } else {
        PacView::Direct
    }
}

/// The decision a PAC/WinHTTP proxy string encodes.
pub open spec fn pac_decision(raw: Seq<char>) -> PacView {
    parse_from(raw, 0)
}

/// The entries of `raw` from index `i` on: the pieces between separators
/// (`raw.split([';', '\n'])`), empty pieces included.
pub open spec fn entries_from(raw: Seq<char>, i: int) -> Seq<Seq<char>>
    decreases raw.len() - i,
{
    if 0 <= i <= raw.len() {
        let j = next_sep(raw, i);
        let rest = if j < raw.len() {
            proof {
                lemma_next_sep_bounds(raw, i);
            }
            entries_from(raw, j + 1)
        } else {
            Seq::empty()
        };
        seq![raw.subrange(i, j)] + rest
    } else {
        Seq::empty()
    }
}

/// The entries of a proxy string.
pub open spec fn entries(raw: Seq<char>) -> Seq<Seq<char>> {
    entries_from(raw, 0)
}

/// Entry `k` is the first one that decides.
pub open spec fn first_usable(es: Seq<Seq<char>>, k: int) -> bool {
    &&& 0 <= k < es.len()
    &&& entry_result(es[k]) is Some
    &&& forall|j: int| 0 <= j < k ==> entry_result(#[trigger] es[j]) is None
}

proof fn lemma_parse_from_entries(raw: Seq<char>, i: int)
    requires
        0 <= i <= raw.len(),
    ensures
        (forall|k: int| 0 <= k < entries_from(raw, i).len() ==> entry_result(
            #[trigger] entries_from(raw, i)[k],
        ) is None) ==> parse_from(raw, i) == PacView::Direct,
        forall|k: int| #[trigger]
            first_usable(entries_from(raw, i), k) ==> parse_from(raw, i) == entry_result(
                entries_from(raw, i)[k],
            )->Some_0,
    decreases raw.len() - i,
{
    lemma_next_sep_bounds(raw, i);
    let j = next_sep(raw, i);
    let e0 = raw.subrange(i, j);
    let es = entries_from(raw, i);
    let rest = if j < raw.len() {
        entries_from(raw, j + 1)
    } else {
        Seq::<Seq<char>>::empty()
    };
    assert(es == seq![e0] + rest);
    assert(es[0] == e0);
    assert forall|k: int| 1 <= k < es.len() implies #[trigger] es[k] == rest[k - 1] by {}
    if j < raw.len() {
        lemma_parse_from_entries(raw, j + 1);
    }
    if entry_result(e0) is Some {
        assert forall|k: int| #[trigger] first_usable(es, k) implies parse_from(raw, i)
            == entry_result(es[k])->Some_0 by {
            if k > 0 {
                assert(entry_result(es[0]) is None);
            }
        }
    } else {
        assert forall|k: int| #[trigger] first_usable(es, k) implies parse_from(raw, i)
            == entry_result(es[k])->Some_0 by {
            assert(k != 0);
            assert(es[k] == rest[k - 1]);
            assert forall|m: int| 0 <= m < k - 1 implies entry_result(#[trigger] rest[m]) is None by {
                assert(es[m + 1] == rest[m]);
            }
            assert(first_usable(rest, k - 1));
        }
        if forall|k: int| 0 <= k < es.len() ==> entry_result(#[trigger] es[k]) is None {
            assert forall|m: int| 0 <= m < rest.len() implies entry_result(#[trigger] rest[m]) is None by {
                assert(es[m + 1] == rest[m]);
            }
        }
    }
}

/// The rule of a proxy string: the first entry that decides decides, and
/// with no deciding entry the result is `Direct`. An entry decides when,
/// trimmed, its keyword is `DIRECT`, or `PROXY` followed by an address, or
/// (not `SOCKS…`) it is a bare list with an address among its
/// whitespace-separated tokens, the first of which decides; SOCKS and
/// malformed entries never decide (see [`entry_result`]).
pub proof fn law_first_usable_entry_decides(raw: Seq<char>)
    ensures
        (forall|k: int| 0 <= k < entries(raw).len() ==> entry_result(#[trigger] entries(raw)[k]) is None)
            ==> pac_decision(raw) == PacView::Direct,
        forall|k: int| #[trigger]
            first_usable(entries(raw), k) ==> pac_decision(raw) == entry_result(entries(raw)[k])->Some_0,
{
    lemma_parse_from_entries(raw, 0);
}

fn next_sep_exec(v: &Vec<char>, i: usize) -> (r: usize)
    requires
        i <= v.len(),
    ensures
        r == next_sep(v@, i as int),
        i <= r <= v.len(),
{
    let mut j = i;
    while j < v.len() && v[j] != ';' && v[j] != '\n'
        invariant
            i <= j <= v.len(),
            next_sep(v@, i as int) == next_sep(v@, j as int),
        decreases v.len() - j,
    {
        j = j + 1;
    }
    j
}

/// Parse a single `host:port` token, tolerating a leading `scheme=` prefix.
fn parse_addr(token: &Vec<char>) -> (r: Option<PacResult>)
    ensures
        opt_view(r) == addr_of(token@),
{
    let start = match rfind_char_exec(token, '=') {
        Some(k) => k + 1,
        None => 0,
    };
    proof {
        crate::text::lemma_rfind_bounds(token@, token@.len() as int, '=');
    }
    let addr = slice_chars(token, start, token.len());
    let c = match rfind_char_exec(&addr, ':') {
        Some(k) => k,
        None => {
            return None;
        },
    };
    proof {
        crate::text::lemma_rfind_bounds(addr@, addr@.len() as int, ':');
    }
    let host = slice_chars(&addr, 0, c);
    let port_text = slice_chars(&addr, c + 1, addr.len());
    let port_trimmed = trimmed(&port_text);
    match parse_u16_exec(&port_trimmed) {
        Some(port) => {
            if host.len() == 0 {
                None
            } else {
                Some(PacResult::Proxy { host: string_of(&host), port })
            }
        },
        None => None,
    }
}

/// What one entry decides (see [`entry_result`]).
fn entry_decision(e: &Vec<char>) -> (r: Option<PacResult>)
    ensures
        opt_view(r) == entry_result(e@),
{
    let t = trimmed(e);
    let keyword = match first_token_exec(&t) {
        Some(k) => k,
        None => {
            return None;
        },
    };
    let up = upper_chars(&keyword);
    let direct = vec!['D', 'I', 'R', 'E', 'C', 'T'];
    let proxy = vec!['P', 'R', 'O', 'X', 'Y'];
    let socks = vec!['S', 'O', 'C', 'K', 'S'];
    assert(direct@ =~= word_direct());
    assert(proxy@ =~= word_proxy());
    assert(socks@ =~= word_socks());
    if chars_eq(&up, &direct) {
        return Some(PacResult::Direct);
    }
    if chars_eq(&up, &proxy) {
        // "PROXY host:port": the address is the next token.
        let rest = after_first_token_exec(&t);
        return match first_token_exec(&rest) {
            Some(a) => parse_addr(&a),
            None => None,
        };
    }
    if starts_with_exec(&up, &socks) {
        // SOCKS is ignored.
        return None;
    }
    // Bare entries (WinHTTP proxy-list form), possibly "scheme=host:port",
    // separated by whitespace: the first address wins.
    bare_decision(&t)
}

/// The first whitespace-separated token of `t` that is an address.
fn bare_decision(t: &Vec<char>) -> (r: Option<PacResult>)
    ensures
        opt_view(r) == bare_from(t@, 0),
{
    let mut i: usize = 0;
    while i <= t.len()
        invariant
            i <= t.len(),
            bare_from(t@, 0) == bare_from(t@, i as int),
        decreases t.len() - i,
    {
        let a = skip_ws_from(t, i);
        if a >= t.len() {
            return None;
        }
        let b = find_ws_from(t, a);
        let token = slice_chars(t, a, b);
        match parse_addr(&token) {
            Some(r) => {
                return Some(r);
            },
            None => {},
        }
        proof {
            lemma_skip_ws_bounds(t@, i as int);
            lemma_find_ws_bounds(t@, a as int);
        }
        i = b;
    }
    None
}

impl PacResult {
    /// Parse a PAC/WinHTTP proxy string. See the module docs for the rules.
    pub fn parse(raw: &str) -> (r: Self)
        ensures
            r@ == pac_decision(raw@),
    {
        let v = chars_of(raw);
        let mut i: usize = 0;
        loop
            invariant
                i <= v.len(),
                parse_from(v@, 0) == parse_from(v@, i as int),
                v@ == raw@,
            decreases v.len() - i,
        {
            let j = next_sep_exec(&v, i);
            let entry = slice_chars(&v, i, j);
            match entry_decision(&entry) {
                Some(r) => {
                    return r;
                },
                None => {},
            }
            if j >= v.len() {
                return PacResult::Direct;
            }
            i = j + 1;
        }
    }
}


/// Any entry whose keyword, upper-cased, begins with `SOCKS` (`SOCKS`,
/// `SOCKS4`, `SOCKS5`, ...) never decides, whatever follows it.
pub proof fn law_socks_entry_never_decides(e: Seq<char>, keyword: Seq<char>)
    requires
        first_token(trim(e)) == Some(keyword),
        upper_seq(keyword).len() >= 5,
        upper_seq(keyword).subrange(0, 5) == seq!['S', 'O', 'C', 'K', 'S'],
    ensures
        entry_result(e) is None,
{
    let up = upper_seq(keyword);
    assert(up[0] == up.subrange(0, 5)[0]);
    assert(up[0] == 'S');
    assert(up != word_direct()) by {
        assert(word_direct()[0] == 'D');
    }
    assert(up != word_proxy()) by {
        assert(word_proxy()[0] == 'P');
    }
    assert(up.subrange(0, 5) == word_socks());
}

proof fn lemma_next_sep_at(s: Seq<char>, i: int, k: int)
    requires
        0 <= i <= k < s.len(),
        is_sep(s[k]),
        forall|m: int| i <= m < k ==> !is_sep(s[m]),
    ensures
        next_sep(s, i) == k,
    decreases k - i,
{
    if i < k {
        lemma_next_sep_at(s, i + 1, k);
    }
}

proof fn lemma_next_sep_shift(p: Seq<char>, r: Seq<char>, i: int)
    requires
        0 <= i <= r.len(),
    ensures
        next_sep(p + r, p.len() + i) == p.len() + next_sep(r, i),
    decreases r.len() - i,
{
    if i < r.len() {
        assert((p + r)[p.len() + i] == r[i]);
        if !is_sep(r[i]) {
            lemma_next_sep_shift(p, r, i + 1);
        }
    }
}

proof fn lemma_parse_from_shift(p: Seq<char>, r: Seq<char>, i: int)
    requires
        0 <= i <= r.len(),
    ensures
        parse_from(p + r, p.len() + i) == parse_from(r, i),
    decreases r.len() - i,
{
    lemma_next_sep_shift(p, r, i);
    lemma_next_sep_bounds(r, i);
    let j = next_sep(r, i);
    assert((p + r).subrange(p.len() + i, p.len() + j) =~= r.subrange(i, j));
    if j < r.len() {
        lemma_parse_from_shift(p, r, j + 1);
    }
}

/// An entry that does not decide passes the decision on: the decision of
/// `e; rest` is the decision of `rest`, for every entry `e` without a
/// separator whose result is skipped (empty, `SOCKS…`, malformed).
pub proof fn law_skipped_entry_defers_to_the_rest(e: Seq<char>, rest: Seq<char>)
    requires
        forall|m: int| 0 <= m < e.len() ==> !is_sep(#[trigger] e[m]),
        entry_result(e) is None,
    ensures
        pac_decision(e + seq![';'] + rest) == pac_decision(rest),
{
    let p = e + seq![';'];
    let raw = p + rest;
    assert(raw =~= e + seq![';'] + rest);
    assert forall|m: int| 0 <= m < e.len() implies !is_sep(raw[m]) by {
        assert(raw[m] == e[m]);
    }
    assert(raw[e.len() as int] == ';');
    lemma_next_sep_at(raw, 0, e.len() as int);
    assert(raw.subrange(0, e.len() as int) =~= e);
    lemma_parse_from_shift(p, rest, 0);
}

} // verus!
