//! Character-level text helpers shared by the header, PAC and HTTP-head
//! parsers: Unicode whitespace, trimming, token scanning, ASCII case folding,
//! decimal parsing and formatting.
//!
//! Every executable helper here is specified by an index-based spec function
//! over `Seq<char>`, so callers can state their own contracts in the same terms.

use vstd::prelude::*;

verus! {

// ---------------------------------------------------------------------------
// Character classes
// ---------------------------------------------------------------------------

/// Unicode `White_Space`, the set behind `char::is_whitespace`, `str::trim`
/// and `str::split_whitespace`.
pub open spec fn is_ws(c: char) -> bool {
    let u = c as u32;
    ||| 0x09 <= u <= 0x0D
    ||| u == 0x20
    ||| u == 0x85
    ||| u == 0xA0
    ||| u == 0x1680
    ||| 0x2000 <= u <= 0x200A
    ||| u == 0x2028
    ||| u == 0x2029
    ||| u == 0x202F
    ||| u == 0x205F
    ||| u == 0x3000
}

/// Executable Unicode whitespace test.
pub fn is_whitespace(c: char) -> (b: bool)
    ensures
        b == is_ws(c),
{
    let u = c as u32;
    (0x09 <= u && u <= 0x0D) || u == 0x20 || u == 0x85 || u == 0xA0 || u == 0x1680 || (0x2000
        <= u && u <= 0x200A) || u == 0x2028 || u == 0x2029 || u == 0x202F || u == 0x205F || u
        == 0x3000
}

/// ASCII lower-casing of one character; other characters are unchanged.
pub open spec fn lower(c: char) -> char {
    if 'A' <= c <= 'Z' {
        ((c as u32) + 32) as char
    } else {
        c
    }
}

/// ASCII upper-casing of one character; other characters are unchanged.
pub open spec fn upper(c: char) -> char {
    if 'a' <= c <= 'z' {
        ((c as u32) - 32) as char
    } else {
        c
    }
}

pub fn lower_char(c: char) -> (r: char)
    ensures
        r == lower(c),
{
    if 'A' <= c && c <= 'Z' {
        let b: u8 = (c as u8) + 32;
        b as char
    } else {
        c
    }
}

pub fn upper_char(c: char) -> (r: char)
    ensures
        r == upper(c),
{
    if 'a' <= c && c <= 'z' {
        let b: u8 = (c as u8) - 32;
        b as char
    } else {
        c
    }
}

/// The ASCII lower-cased text.
pub open spec fn lower_seq(s: Seq<char>) -> Seq<char> {
    s.map_values(|c: char| lower(c))
}

/// The ASCII upper-cased text.
pub open spec fn upper_seq(s: Seq<char>) -> Seq<char> {
    s.map_values(|c: char| upper(c))
}

/// `a` and `b` are equal up to ASCII case.
pub open spec fn eq_ignore_case(a: Seq<char>, b: Seq<char>) -> bool {
    lower_seq(a) == lower_seq(b)
}

// ---------------------------------------------------------------------------
// Scans
// ---------------------------------------------------------------------------

/// The first index `>= i` that is not whitespace (or `s.len()`).
pub open spec fn skip_ws(s: Seq<char>, i: int) -> int
    decreases s.len() - i,
{
    if 0 <= i < s.len() && is_ws(s[i]) {
        skip_ws(s, i + 1)
    } else {
        i
    }
}

/// The first index `>= i` that is whitespace (or `s.len()`).
pub open spec fn find_ws(s: Seq<char>, i: int) -> int
    decreases s.len() - i,
{
    if 0 <= i < s.len() && !is_ws(s[i]) {
        find_ws(s, i + 1)
    } else {
        i
    }
}

/// Walking back from `j` towards `lo`, the end of the last non-whitespace run.
pub open spec fn back_ws(s: Seq<char>, j: int, lo: int) -> int
    decreases j - lo,
{
    if lo < j <= s.len() && is_ws(s[j - 1]) {
        back_ws(s, j - 1, lo)
    } else {
        j
    }
}

/// The first index `>= i` holding `c` (or `s.len()`).
pub open spec fn find_char(s: Seq<char>, i: int, c: char) -> int
    decreases s.len() - i,
{
    if 0 <= i < s.len() && s[i] != c {
        find_char(s, i + 1, c)
    } else {
        i
    }
}

/// The last index holding `c`, or `-1` when `c` does not occur.
pub open spec fn rfind_char(s: Seq<char>, c: char) -> int {
    rfind_before(s, s.len() as int, c)
}

/// The last index `< j` holding `c`, or `-1`.
pub open spec fn rfind_before(s: Seq<char>, j: int, c: char) -> int
    decreases j,
{
    if 0 < j <= s.len() {
        if s[j - 1] == c {
            j - 1
        } else {
            rfind_before(s, j - 1, c)
        }
    } else {
        -1
    }
}

/// Text with leading and trailing whitespace removed (`str::trim`).
pub open spec fn trim(s: Seq<char>) -> Seq<char> {
    let lo = skip_ws(s, 0);
    s.subrange(lo, back_ws(s, s.len() as int, lo))
}

/// The first whitespace-separated token (`split_whitespace().next()`).
pub open spec fn first_token(s: Seq<char>) -> Option<Seq<char>> {
    let a = skip_ws(s, 0);
    if a < s.len() {
        Some(s.subrange(a, find_ws(s, a)))
    } else {
        None
    }
}

/// What follows the first token (empty when there is none).
pub open spec fn after_first_token(s: Seq<char>) -> Seq<char> {
    let a = skip_ws(s, 0);
    if a < s.len() {
        s.subrange(find_ws(s, a), s.len() as int)
    } else {
        Seq::empty()
    }
}

/// The second whitespace-separated token (`split_whitespace().nth(1)`).
pub open spec fn second_token(s: Seq<char>) -> Option<Seq<char>> {
    first_token(after_first_token(s))
}

/// `s` occurs in `t` as a contiguous piece.
pub open spec fn contains_seq(t: Seq<char>, s: Seq<char>) -> bool {
    exists|k: int| 0 <= k <= t.len() - s.len() && #[trigger] t.subrange(k, k + s.len()) == s
}

pub proof fn lemma_skip_ws_bounds(s: Seq<char>, i: int)
    requires
        0 <= i <= s.len(),
    ensures
        i <= skip_ws(s, i) <= s.len(),
        skip_ws(s, i) < s.len() ==> !is_ws(s[skip_ws(s, i)]),
        forall|k: int| i <= k < skip_ws(s, i) ==> is_ws(#[trigger] s[k]),
    decreases s.len() - i,
{
    if i < s.len() && is_ws(s[i]) {
        lemma_skip_ws_bounds(s, i + 1);
    }
}

pub proof fn lemma_find_ws_bounds(s: Seq<char>, i: int)
    requires
        0 <= i <= s.len(),
    ensures
        i <= find_ws(s, i) <= s.len(),
        find_ws(s, i) < s.len() ==> is_ws(s[find_ws(s, i)]),
        forall|k: int| i <= k < find_ws(s, i) ==> !is_ws(#[trigger] s[k]),
    decreases s.len() - i,
{
    if i < s.len() && !is_ws(s[i]) {
        lemma_find_ws_bounds(s, i + 1);
    }
}

pub proof fn lemma_back_ws_bounds(s: Seq<char>, j: int, lo: int)
    requires
        0 <= lo <= j <= s.len(),
    ensures
        lo <= back_ws(s, j, lo) <= j,
        back_ws(s, j, lo) > lo ==> !is_ws(s[back_ws(s, j, lo) - 1]),
        forall|k: int| back_ws(s, j, lo) <= k < j ==> is_ws(#[trigger] s[k]),
    decreases j - lo,
{
    if lo < j && is_ws(s[j - 1]) {
        lemma_back_ws_bounds(s, j - 1, lo);
    }
}

pub proof fn lemma_find_char_bounds(s: Seq<char>, i: int, c: char)
    requires
        0 <= i <= s.len(),
    ensures
        i <= find_char(s, i, c) <= s.len(),
        find_char(s, i, c) < s.len() ==> s[find_char(s, i, c)] == c,
        forall|k: int| i <= k < find_char(s, i, c) ==> #[trigger] s[k] != c,
    decreases s.len() - i,
{
    if i < s.len() && s[i] != c {
        lemma_find_char_bounds(s, i + 1, c);
    }
}

pub proof fn lemma_rfind_bounds(s: Seq<char>, j: int, c: char)
    requires
        0 <= j <= s.len(),
    ensures
        -1 <= rfind_before(s, j, c) < j,
        rfind_before(s, j, c) >= 0 ==> s[rfind_before(s, j, c)] == c,
        forall|k: int| rfind_before(s, j, c) < k < j ==> #[trigger] s[k] != c,
    decreases j,
{
    if 0 < j && s[j - 1] != c {
        lemma_rfind_bounds(s, j - 1, c);
    }
}

/// Text whose first and last characters are not whitespace trims to itself.
pub proof fn lemma_trim_unchanged(s: Seq<char>)
    requires
        s.len() > 0,
        !is_ws(s[0]),
        !is_ws(s[s.len() - 1]),
    ensures
        trim(s) == s,
{
    assert(skip_ws(s, 0) == 0);
    assert(back_ws(s, s.len() as int, 0) == s.len());
    assert(s.subrange(0, s.len() as int) =~= s);
}

/// Text without any whitespace is a single token: trimming keeps it and the
/// first whitespace is at its end.
pub proof fn lemma_no_ws(s: Seq<char>, i: int)
    requires
        0 <= i <= s.len(),
        forall|k: int| 0 <= k < s.len() ==> !is_ws(#[trigger] s[k]),
    ensures
        find_ws(s, i) == s.len(),
    decreases s.len() - i,
{
    if i < s.len() {
        lemma_no_ws(s, i + 1);
    }
}

// ---------------------------------------------------------------------------
// Executable conversions and scans
// ---------------------------------------------------------------------------

/// The characters of `s`.
pub fn chars_of(s: &str) -> (v: Vec<char>)
    ensures
        v@ == s@,
{
    let mut v: Vec<char> = Vec::new();
    for c in it: s.chars()
        invariant
            it.seq() == s@,
            v@ == it.seq().take(it.index() as int),
    {
        v.push(c);
    }
    v
}

/// Append one character to a `String` (std `String::push`).
#[verifier::external_body]
pub(crate) fn push_char(s: &mut String, c: char)
    ensures
        final(s)@ == old(s)@.push(c),
{
    s.push(c);
}

/// Append the characters of `v` to `s`.
pub fn push_chars(s: &mut String, v: &Vec<char>)
    ensures
        final(s)@ == old(s)@ + v@,
{
    let ghost start = s@;
    let mut i: usize = 0;
    while i < v.len()
        invariant
            i <= v.len(),
            s@ == start + v@.take(i as int),
        decreases v.len() - i,
    {
        push_char(s, v[i]);
        assert(v@.take(i + 1) =~= v@.take(i as int).push(v@[i as int]));
        i = i + 1;
    }
    assert(v@.take(v.len() as int) =~= v@);
}

/// A `String` holding exactly the characters of `v`.
pub fn string_of(v: &Vec<char>) -> (s: String)
    ensures
        s@ == v@,
{
    let mut s = String::new();
    push_chars(&mut s, v);
    assert(Seq::<char>::empty() + v@ =~= v@);
    s
}

/// The characters `v[lo..hi]`.
pub fn slice_chars(v: &Vec<char>, lo: usize, hi: usize) -> (r: Vec<char>)
    requires
        lo <= hi <= v.len(),
    ensures
        r@ == v@.subrange(lo as int, hi as int),
{
    let mut r: Vec<char> = Vec::new();
    let mut i = lo;
    while i < hi
        invariant
            lo <= i <= hi,
            hi <= v.len(),
            r@ == v@.subrange(lo as int, i as int),
        decreases hi - i,
    {
        r.push(v[i]);
        assert(v@.subrange(lo as int, i + 1) =~= v@.subrange(lo as int, i as int).push(
            v@[i as int],
        ));
        i = i + 1;
    }
    r
}

pub fn skip_ws_from(v: &Vec<char>, i: usize) -> (r: usize)
    requires
        i <= v.len(),
    ensures
        r == skip_ws(v@, i as int),
        i <= r <= v.len(),
{
    let mut j = i;
    while j < v.len() && is_whitespace(v[j])
        invariant
            i <= j <= v.len(),
            skip_ws(v@, i as int) == skip_ws(v@, j as int),
        decreases v.len() - j,
    {
        j = j + 1;
    }
    j
}

pub fn find_ws_from(v: &Vec<char>, i: usize) -> (r: usize)
    requires
        i <= v.len(),
    ensures
        r == find_ws(v@, i as int),
        i <= r <= v.len(),
{
    let mut j = i;
    while j < v.len() && !is_whitespace(v[j])
        invariant
            i <= j <= v.len(),
            find_ws(v@, i as int) == find_ws(v@, j as int),
        decreases v.len() - j,
    {
        j = j + 1;
    }
    j
}

pub fn back_ws_from(v: &Vec<char>, j: usize, lo: usize) -> (r: usize)
    requires
        lo <= j <= v.len(),
    ensures
        r == back_ws(v@, j as int, lo as int),
        lo <= r <= j,
{
    let mut k = j;
    while k > lo && is_whitespace(v[k - 1])
        invariant
            lo <= k <= j,
            j <= v.len(),
            back_ws(v@, j as int, lo as int) == back_ws(v@, k as int, lo as int),
        decreases k - lo,
    {
        k = k - 1;
    }
    k
}

pub fn find_char_from(v: &Vec<char>, i: usize, c: char) -> (r: usize)
    requires
        i <= v.len(),
    ensures
        r == find_char(v@, i as int, c),
        i <= r <= v.len(),
{
    let mut j = i;
    while j < v.len() && v[j] != c
        invariant
            i <= j <= v.len(),
            find_char(v@, i as int, c) == find_char(v@, j as int, c),
        decreases v.len() - j,
    {
        j = j + 1;
    }
    j
}

/// The last index holding `c`, if any.
pub fn rfind_char_exec(v: &Vec<char>, c: char) -> (r: Option<usize>)
    ensures
        match r {
            Some(k) => k == rfind_char(v@, c) && k < v@.len(),
            None => rfind_char(v@, c) == -1,
        },
{
    let mut j = v.len();
    while j > 0 && v[j - 1] != c
        invariant
            j <= v.len(),
            rfind_char(v@, c) == rfind_before(v@, j as int, c),
        decreases j,
    {
        j = j - 1;
    }
    if j == 0 {
        None
    } else {
        Some(j - 1)
    }
}

/// `trim(v)`.
pub fn trimmed(v: &Vec<char>) -> (r: Vec<char>)
    ensures
        r@ == trim(v@),
{
    let lo = skip_ws_from(v, 0);
    let hi = back_ws_from(v, v.len(), lo);
    slice_chars(v, lo, hi)
}

/// The first token, if any.
pub fn first_token_exec(v: &Vec<char>) -> (r: Option<Vec<char>>)
    ensures
        match r {
            Some(t) => first_token(v@) == Some(t@),
            None => first_token(v@) is None,
        },
{
    let a = skip_ws_from(v, 0);
    if a < v.len() {
        let b = find_ws_from(v, a);
        Some(slice_chars(v, a, b))
    } else {
        None
    }
}

/// What follows the first token.
pub fn after_first_token_exec(v: &Vec<char>) -> (r: Vec<char>)
    ensures
        r@ == after_first_token(v@),
{
    let a = skip_ws_from(v, 0);
    if a < v.len() {
        let b = find_ws_from(v, a);
        slice_chars(v, b, v.len())
    } else {
        Vec::new()
    }
}

/// ASCII lower-cased copy.
pub fn lower_chars(v: &Vec<char>) -> (r: Vec<char>)
    ensures
        r@ == lower_seq(v@),
{
    let mut r: Vec<char> = Vec::new();
    let mut i: usize = 0;
    while i < v.len()
        invariant
            i <= v.len(),
            r@ == lower_seq(v@.take(i as int)),
        decreases v.len() - i,
    {
        r.push(lower_char(v[i]));
        assert(lower_seq(v@.take(i + 1)) =~= lower_seq(v@.take(i as int)).push(lower(v@[i as int])));
        i = i + 1;
    }
    assert(v@.take(v.len() as int) =~= v@);
    r
}

/// ASCII upper-cased copy.
pub fn upper_chars(v: &Vec<char>) -> (r: Vec<char>)
    ensures
        r@ == upper_seq(v@),
{
    let mut r: Vec<char> = Vec::new();
    let mut i: usize = 0;
    while i < v.len()
        invariant
            i <= v.len(),
            r@ == upper_seq(v@.take(i as int)),
        decreases v.len() - i,
    {
        r.push(upper_char(v[i]));
        assert(upper_seq(v@.take(i + 1)) =~= upper_seq(v@.take(i as int)).push(upper(v@[i as int])));
        i = i + 1;
    }
    assert(v@.take(v.len() as int) =~= v@);
    r
}

/// Character-wise equality.
pub fn chars_eq(a: &Vec<char>, b: &Vec<char>) -> (r: bool)
    ensures
        r == (a@ == b@),
{
    if a.len() != b.len() {
        return false;
    }
    let mut i: usize = 0;
    while i < a.len()
        invariant
            i <= a.len(),
            a.len() == b.len(),
            forall|k: int| 0 <= k < i ==> a@[k] == b@[k],
        decreases a.len() - i,
    {
        if a[i] != b[i] {
            return false;
        }
        i = i + 1;
    }
    assert(a@ =~= b@);
    true
}

/// Equality up to ASCII case.
pub fn eq_ignore_case_exec(a: &Vec<char>, b: &Vec<char>) -> (r: bool)
    ensures
        r == eq_ignore_case(a@, b@),
{
    let la = lower_chars(a);
    let lb = lower_chars(b);
    chars_eq(&la, &lb)
}

/// `v` starts with `p`.
pub fn starts_with_exec(v: &Vec<char>, p: &Vec<char>) -> (r: bool)
    ensures
        r == (p@.len() <= v@.len() && v@.subrange(0, p@.len() as int) == p@),
{
    if p.len() > v.len() {
        return false;
    }
    let head = slice_chars(v, 0, p.len());
    chars_eq(&head, p)
}

/// `p` occurs in `t`.
pub fn contains_exec(t: &Vec<char>, p: &Vec<char>) -> (r: bool)
    ensures
        r == contains_seq(t@, p@),
{
    if p.len() > t.len() {
        return false;
    }
    let mut k: usize = 0;
    let last = t.len() - p.len();
    while k < last
        invariant
            p.len() <= t.len(),
            last == t.len() - p.len(),
            k <= last,
            forall|j: int| 0 <= j < k ==> #[trigger] t@.subrange(j, j + p@.len()) != p@,
        decreases last - k,
    {
        let piece = slice_chars(t, k, k + p.len());
        if chars_eq(&piece, p) {
            return true;
        }
        k = k + 1;
    }
    let piece = slice_chars(t, last, t.len());
    let found = chars_eq(&piece, p);
    proof {
        if found {
            assert(t@.subrange(last as int, last + p@.len()) == p@);
        } else {
            assert forall|j: int| 0 <= j <= t@.len() - p@.len() implies #[trigger] t@.subrange(
                j,
                j + p@.len(),
            ) != p@ by {
                if j == last {
                }
            };
        }
    }
    found
}

/// Whether two texts are equal.
pub fn same_text(a: &str, b: &str) -> (r: bool)
    ensures
        r == (a@ == b@),
{
    let x = chars_of(a);
    let y = chars_of(b);
    chars_eq(&x, &y)
}

/// The first index `>= i` that does not hold `c` (or `s.len()`).
pub open spec fn skip_char(s: Seq<char>, i: int, c: char) -> int
    decreases s.len() - i,
{
    if 0 <= i < s.len() && s[i] == c {
        skip_char(s, i + 1, c)
    } else {
        i
    }
}

/// Walking back from `j` towards `lo`, the end of the last run not ending in `c`.
pub open spec fn back_char(s: Seq<char>, j: int, lo: int, c: char) -> int
    decreases j - lo,
{
    if lo < j <= s.len() && s[j - 1] == c {
        back_char(s, j - 1, lo, c)
    } else {
        j
    }
}

/// Text with every leading and trailing `c` removed (`str::trim_matches(c)`).
pub open spec fn strip_char(s: Seq<char>, c: char) -> Seq<char> {
    let lo = skip_char(s, 0, c);
    s.subrange(lo, back_char(s, s.len() as int, lo, c))
}

/// `strip_char(v, c)`.
pub fn stripped(v: &Vec<char>, c: char) -> (r: Vec<char>)
    ensures
        r@ == strip_char(v@, c),
{
    let mut lo: usize = 0;
    while lo < v.len() && v[lo] == c
        invariant
            lo <= v.len(),
            skip_char(v@, 0, c) == skip_char(v@, lo as int, c),
        decreases v.len() - lo,
    {
        lo = lo + 1;
    }
    let mut hi = v.len();
    while hi > lo && v[hi - 1] == c
        invariant
            lo <= hi <= v.len(),
            back_char(v@, v@.len() as int, lo as int, c) == back_char(v@, hi as int, lo as int, c),
        decreases hi - lo,
    {
        hi = hi - 1;
    }
    slice_chars(v, lo, hi)
}

// ---------------------------------------------------------------------------
// Decimal numbers
// ---------------------------------------------------------------------------

/// The value of `c` as a digit in base `radix` (`char::to_digit`), if it is one.
pub open spec fn digit_value(c: char, radix: nat) -> Option<nat> {
    let u = c as u32;
    let v: int = if '0' <= c <= '9' {
        u - 48
    } else if 'a' <= c <= 'z' {
        u - 97 + 10
    } else if 'A' <= c <= 'Z' {
        u - 65 + 10
    } else {
        99
    };
    if 0 <= v < radix {
        Some(v as nat)
    } else {
        None
    }
}

/// The value of a run of base-`radix` digits.
pub open spec fn digits_value(d: Seq<char>, radix: nat) -> nat
    decreases d.len(),
{
    if d.len() == 0 {
        0
    } else {
        digits_value(d.drop_last(), radix) * radix + match digit_value(d.last(), radix) {
            Some(v) => v,
            None => 0,
        }
    }
}

/// The digits of a number after an optional leading `+`.
pub open spec fn sign_stripped(s: Seq<char>) -> Seq<char> {
    if s.len() > 0 && s[0] == '+' {
        s.drop_first()
    } else {
        s
    }
}

/// `from_str_radix` for an unsigned type whose largest value is `max`: an
/// optional `+`, then one or more base-`radix` digits whose value is at most
/// `max`.
pub open spec fn parse_uint(s: Seq<char>, radix: nat, max: nat) -> Option<nat> {
    let d = sign_stripped(s);
    if d.len() > 0 && (forall|i: int| 0 <= i < d.len() ==> (#[trigger] digit_value(d[i], radix)) is Some)
        && digits_value(d, radix) <= max {
        Some(digits_value(d, radix))
    } else {
        None
    }
}

/// `u16::from_str`.
pub open spec fn parse_u16(s: Seq<char>) -> Option<u16> {
    match parse_uint(s, 10, 65535) {
        Some(n) => Some(n as u16),
        None => None,
    }
}

/// `usize::from_str`.
pub open spec fn parse_usize(s: Seq<char>) -> Option<usize> {
    match parse_uint(s, 10, usize::MAX as nat) {
        Some(n) => Some(n as usize),
        None => None,
    }
}

/// `usize::from_str_radix(s, 16)`.
pub open spec fn parse_hex_usize(s: Seq<char>) -> Option<usize> {
    match parse_uint(s, 16, usize::MAX as nat) {
        Some(n) => Some(n as usize),
        None => None,
    }
}

proof fn lemma_digits_value_take(d: Seq<char>, i: int, radix: nat)
    requires
        0 <= i < d.len(),
    ensures
        digits_value(d.take(i + 1), radix) == digits_value(d.take(i), radix) * radix + match digit_value(
            d[i],
            radix,
        ) {
            Some(v) => v,
            None => 0,
        },
{
    assert(d.take(i + 1).drop_last() =~= d.take(i));
}

proof fn lemma_digits_value_mono(d: Seq<char>, i: int, radix: nat)
    requires
        0 <= i <= d.len(),
        radix >= 1,
    ensures
        digits_value(d, radix) >= digits_value(d.take(i), radix),
    decreases d.len() - i,
{
    if i < d.len() {
        lemma_digits_value_take(d, i, radix);
        let x = digits_value(d.take(i), radix);
        assert(x * radix >= x) by (nonlinear_arith)
            requires
                radix >= 1,
                x >= 0,
        ;
        lemma_digits_value_mono(d, i + 1, radix);
    } else {
        assert(d.take(i) =~= d);
    }
}

fn digit_value_exec(c: char, radix: u32) -> (r: Option<u64>)
    requires
        radix == 10 || radix == 16,
    ensures
        match r {
            Some(v) => digit_value(c, radix as nat) == Some(v as nat) && v < radix,
            None => digit_value(c, radix as nat) is None,
        },
{
    let u = c as u32;
    let v: u32 = if '0' <= c && c <= '9' {
        u - 48
    } else if 'a' <= c && c <= 'z' {
        u - 97 + 10
    } else if 'A' <= c && c <= 'Z' {
        u - 65 + 10
    } else {
        99
    };
    if v < radix {
        Some(v as u64)
    } else {
        None
    }
}

/// Parse `v` as `from_str_radix(v, radix)` does for an unsigned type whose
/// largest value is `max`.
pub fn parse_uint_exec(v: &Vec<char>, radix: u32, max: u64) -> (r: Option<u64>)
    requires
        radix == 10 || radix == 16,
    ensures
        match r {
            Some(n) => parse_uint(v@, radix as nat, max as nat) == Some(n as nat),
            None => parse_uint(v@, radix as nat, max as nat) is None,
        },
{
    let start: usize = if v.len() > 0 && v[0] == '+' {
        1
    } else {
        0
    };
    let ghost d = sign_stripped(v@);
    let ghost rad = radix as nat;
    assert(d =~= v@.subrange(start as int, v@.len() as int));
    if start >= v.len() {
        return None;
    }
    let mut acc: u128 = 0;
    let mut i = start;
    while i < v.len()
        invariant
            start <= i <= v.len(),
            radix == 10 || radix == 16,
            rad == radix as nat,
            d =~= v@.subrange(start as int, v@.len() as int),
            d == sign_stripped(v@),
            forall|k: int| 0 <= k < i - start ==> (#[trigger] digit_value(d[k], rad)) is Some,
            acc == digits_value(d.take(i - start), rad),
            acc <= max,
        decreases v.len() - i,
    {
        let dig = match digit_value_exec(v[i], radix) {
            Some(x) => x,
            None => {
                assert(digit_value(d[i - start], rad) is None);
                return None;
            },
        };
        proof {
            lemma_digits_value_take(d, i - start, rad);
        }
        acc = if radix == 10 {
            acc * 10 + dig as u128
        } else {
            acc * 16 + dig as u128
        };
        if acc > max as u128 {
            proof {
                if forall|k: int| 0 <= k < d.len() ==> (#[trigger] digit_value(d[k], rad)) is Some {
                    lemma_digits_value_mono(d, i + 1 - start, rad);
                }
            }
            return None;
        }
        i = i + 1;
    }
    assert(d.take(d.len() as int) =~= d);
    Some(acc as u64)
}

/// Parse `v` as a `u16` the way `u16::from_str` does.
pub fn parse_u16_exec(v: &Vec<char>) -> (r: Option<u16>)
    ensures
        r == parse_u16(v@),
{
    match parse_uint_exec(v, 10, 65535) {
        Some(n) => Some(n as u16),
        None => None,
    }
}

/// Parse `v` as a `usize` the way `usize::from_str` does.
pub fn parse_usize_exec(v: &Vec<char>) -> (r: Option<usize>)
    ensures
        r == parse_usize(v@),
{
    match parse_uint_exec(v, 10, usize::MAX as u64) {
        Some(n) => Some(n as usize),
        None => None,
    }
}

/// Parse `v` the way `usize::from_str_radix(v, 16)` does.
pub fn parse_hex_usize_exec(v: &Vec<char>) -> (r: Option<usize>)
    ensures
        r == parse_hex_usize(v@),
{
    match parse_uint_exec(v, 16, usize::MAX as u64) {
        Some(n) => Some(n as usize),
        None => None,
    }
}

/// The decimal text of `n`.
pub open spec fn decimal(n: nat) -> Seq<char>
    decreases n,
{
    if n < 10 {
        seq![digit_char(n)]
    } else {
        decimal(n / 10).push(digit_char(n % 10))
    }
}

pub open spec fn digit_char(d: nat) -> char {
    ((d + 48) as u32) as char
}

/// Append the decimal text of `n` to `s`.
pub fn push_decimal(s: &mut String, n: u64)
    ensures
        final(s)@ == old(s)@ + decimal(n as nat),
    decreases n,
{
    if n >= 10 {
        push_decimal(s, n / 10);
    }
    let d: u8 = (n % 10) as u8;
    let c: char = (d + 48) as char;
    assert(c == digit_char((n % 10) as nat));
    push_char(s, c);
    proof {
        if n >= 10 {
            assert(old(s)@ + decimal((n / 10) as nat) + seq![c] =~= old(s)@ + decimal(n as nat));
        } else {
            assert(old(s)@ + seq![c] =~= old(s)@ + decimal(n as nat));
        }
    }
}


// ---------------------------------------------------------------------------
// Case folding and the scans
// ---------------------------------------------------------------------------

pub proof fn lemma_skip_char_bounds(s: Seq<char>, i: int, c: char)
    requires
        0 <= i <= s.len(),
    ensures
        i <= skip_char(s, i, c) <= s.len(),
    decreases s.len() - i,
{
    if i < s.len() && s[i] == c {
        lemma_skip_char_bounds(s, i + 1, c);
    }
}

pub proof fn lemma_back_char_bounds(s: Seq<char>, j: int, lo: int, c: char)
    requires
        0 <= lo <= j <= s.len(),
    ensures
        lo <= back_char(s, j, lo, c) <= j,
    decreases j - lo,
{
    if lo < j && s[j - 1] == c {
        lemma_back_char_bounds(s, j - 1, lo, c);
    }
}

/// Lower-casing keeps whitespace and every non-letter as it is.
pub proof fn lemma_lower_char(c: char)
    ensures
        is_ws(lower(c)) == is_ws(c),
        (lower(c) == '.') == (c == '.'),
        lower(lower(c)) == lower(c),
{
}

/// The whitespace scans do not see ASCII case.
pub proof fn lemma_skip_ws_lower(s: Seq<char>, i: int)
    ensures
        skip_ws(lower_seq(s), i) == skip_ws(s, i),
    decreases s.len() - i,
{
    if 0 <= i < s.len() {
        lemma_lower_char(s[i]);
        lemma_skip_ws_lower(s, i + 1);
    }
}

pub proof fn lemma_back_ws_lower(s: Seq<char>, j: int, lo: int)
    requires
        0 <= lo,
    ensures
        back_ws(lower_seq(s), j, lo) == back_ws(s, j, lo),
    decreases j - lo,
{
    if lo < j <= s.len() {
        lemma_lower_char(s[j - 1]);
        lemma_back_ws_lower(s, j - 1, lo);
    }
}

/// The `.` scans do not see ASCII case.
pub proof fn lemma_skip_dot_lower(s: Seq<char>, i: int)
    ensures
        skip_char(lower_seq(s), i, '.') == skip_char(s, i, '.'),
    decreases s.len() - i,
{
    if 0 <= i < s.len() {
        lemma_lower_char(s[i]);
        lemma_skip_dot_lower(s, i + 1);
    }
}

pub proof fn lemma_back_dot_lower(s: Seq<char>, j: int, lo: int)
    requires
        0 <= lo,
    ensures
        back_char(lower_seq(s), j, lo, '.') == back_char(s, j, lo, '.'),
    decreases j - lo,
{
    if lo < j <= s.len() {
        lemma_lower_char(s[j - 1]);
        lemma_back_dot_lower(s, j - 1, lo);
    }
}

/// Trimming and stripping dots commute with lower-casing, and lower-casing
/// twice is lower-casing once.
pub proof fn lemma_lower_commutes(s: Seq<char>)
    ensures
        trim(lower_seq(s)) == lower_seq(trim(s)),
        strip_char(lower_seq(s), '.') == lower_seq(strip_char(s, '.')),
        lower_seq(lower_seq(s)) == lower_seq(s),
{
    lemma_skip_ws_lower(s, 0);
    lemma_skip_ws_bounds(s, 0);
    let lo = skip_ws(s, 0);
    lemma_back_ws_lower(s, s.len() as int, lo);
    lemma_back_ws_bounds(s, s.len() as int, lo);
    assert(trim(lower_seq(s)) =~= lower_seq(trim(s)));
    lemma_skip_dot_lower(s, 0);
    lemma_skip_char_bounds(s, 0, '.');
    let dlo = skip_char(s, 0, '.');
    lemma_back_dot_lower(s, s.len() as int, dlo);
    lemma_back_char_bounds(s, s.len() as int, dlo, '.');
    assert(strip_char(lower_seq(s), '.') =~= lower_seq(strip_char(s, '.')));
    assert forall|k: int| 0 <= k < s.len() implies #[trigger] lower_seq(lower_seq(s))[k] == lower_seq(
        s,
    )[k] by {
        lemma_lower_char(s[k]);
    }
    assert(lower_seq(lower_seq(s)) =~= lower_seq(s));
}


/// The first `c` at or after `i` is at `k` when `k` holds `c` and nothing
/// between `i` and `k` does.
pub proof fn lemma_find_char_at(s: Seq<char>, i: int, c: char, k: int)
    requires
        0 <= i <= k < s.len(),
        s[k] == c,
        forall|m: int| i <= m < k ==> s[m] != c,
    ensures
        find_char(s, i, c) == k,
    decreases k - i,
{
    if i < k {
        lemma_find_char_at(s, i + 1, c, k);
    }
}

} // verus!
