//! Corporate-network detection: whether the active adapters' DNS suffixes say
//! the machine is on the corporate network.

use crate::text::{
    chars_of, lemma_lower_commutes, lower_chars, lower_seq, slice_chars, strip_char, stripped, trim,
    trimmed,
};
use vstd::prelude::*;

verus! {

/// A suffix lower-cased, trimmed of whitespace, and stripped of leading and
/// trailing dots.
pub open spec fn normalized(s: Seq<char>) -> Seq<char> {
    lower_seq(strip_char(trim(s), '.'))
}

/// A normalized active suffix `a` lies within the normalized corporate suffix
/// `c`: it equals `c` or ends with `.c` (a dot boundary).
pub open spec fn suffix_matches(a: Seq<char>, c: Seq<char>) -> bool {
    a == c || (a.len() >= c.len() + 1 && a.subrange(a.len() - c.len() - 1, a.len() as int) == seq!['.']
        + c)
}

/// An active suffix and a configured one, both non-empty once normalized,
/// that match.
pub open spec fn corp_pair(active: Seq<char>, configured: Seq<char>) -> bool {
    let a = normalized(active);
    let c = normalized(configured);
    a.len() > 0 && c.len() > 0 && suffix_matches(a, c)
}

/// On the corporate network: some active suffix matches some configured one.
pub open spec fn on_corp_of(active: Seq<String>, configured: Seq<String>) -> bool {
    exists|i: int, j: int|
        0 <= i < active.len() && 0 <= j < configured.len() && #[trigger] corp_pair(
            active[i]@,
            configured[j]@,
        )
}

/// Lower-case, trim whitespace, and strip leading/trailing dots; `None` for
/// entries that are empty once normalized.
pub fn normalize(s: &str) -> (r: Option<Vec<char>>)
    ensures
        match r {
            Some(v) => v@ == normalized(s@) && v@.len() > 0,
            None => normalized(s@).len() == 0,
        },
{
    let chars = chars_of(s);
    let t = trimmed(&chars);
    let d = stripped(&t, '.');
    let l = lower_chars(&d);
    if l.len() == 0 {
        None
    } else {
        Some(l)
    }
}

/// Whether normalized suffix `a` equals `c` or sits below it on a dot boundary.
pub fn suffix_match(a: &Vec<char>, c: &Vec<char>) -> (r: bool)
    ensures
        r == suffix_matches(a@, c@),
{
    if crate::text::chars_eq(a, c) {
        return true;
    }
    if a.len() <= c.len() {
        return false;
    }
    let tail = slice_chars(a, a.len() - c.len() - 1, a.len());
    let mut dotted: Vec<char> = Vec::new();
    dotted.push('.');
    let mut k: usize = 0;
    while k < c.len()
        invariant
            k <= c.len(),
            dotted@ == seq!['.'] + c@.take(k as int),
        decreases c.len() - k,
    {
        dotted.push(c[k]);
        assert(seq!['.'] + c@.take(k + 1) =~= (seq!['.'] + c@.take(k as int)).push(c@[k as int]));
        k = k + 1;
    }
    assert(c@.take(c.len() as int) =~= c@);
    crate::text::chars_eq(&tail, &dotted)
}

/// Decide whether any `active` DNS suffix indicates the corporate network,
/// given the `configured` corporate suffixes.
///
/// Matching is case-insensitive and dot-boundary aware: an active suffix
/// matches a configured suffix `c` when it equals `c` or ends with `.c`.
/// Leading and trailing dots and surrounding whitespace are ignored on both
/// sides; empty entries never match.
pub fn on_corp(active: &[String], configured: &[String]) -> (r: bool)
    ensures
        r == on_corp_of(active@, configured@),
{
    let mut i: usize = 0;
    while i < active.len()
        invariant
            i <= active@.len(),
            forall|i2: int, j2: int|
                0 <= i2 < i && 0 <= j2 < configured@.len() ==> !#[trigger] corp_pair(
                    active@[i2]@,
                    configured@[j2]@,
                ),
        decreases active.len() - i,
    {
        match normalize(active[i].as_str()) {
            Some(a) => {
                let mut j: usize = 0;
                while j < configured.len()
                    invariant
                        i < active@.len(),
                        j <= configured@.len(),
                        a@ == normalized(active@[i as int]@),
                        a@.len() > 0,
                        forall|i2: int, j2: int|
                            0 <= i2 < i && 0 <= j2 < configured@.len() ==> !#[trigger] corp_pair(
                                active@[i2]@,
                                configured@[j2]@,
                            ),
                        forall|j2: int|
                            0 <= j2 < j ==> !#[trigger] corp_pair(active@[i as int]@, configured@[j2]@),
                    decreases configured.len() - j,
                {
                    match normalize(configured[j].as_str()) {
                        Some(c) => {
                            if suffix_match(&a, &c) {
                                assert(corp_pair(active@[i as int]@, configured@[j as int]@));
                                return true;
                            }
                        },
                        None => {},
                    }
                    j = j + 1;
                }
            },
            None => {},
        }
        i = i + 1;
    }
    false
}

/// Every configured suffix that is not blank puts a machine using exactly that
/// suffix on the corporate network.
pub proof fn law_suffix_matches_itself(s: String)
    requires
        normalized(s@).len() > 0,
    ensures
        on_corp_of(seq![s], seq![s]),
{
    assert(corp_pair(seq![s][0]@, seq![s][0]@));
}

/// With no usable configured suffix the machine is never on the corporate
/// network.
pub proof fn law_blank_configuration_is_off_corp(active: Seq<String>, configured: Seq<String>)
    requires
        forall|j: int| 0 <= j < configured.len() ==> normalized(#[trigger] configured[j]@).len() == 0,
    ensures
        !on_corp_of(active, configured),
{
}

/// More active adapters never take the machine off the corporate network.
pub proof fn law_more_adapters_stay_on_corp(active: Seq<String>, extra: String, configured: Seq<String>)
    requires
        on_corp_of(active, configured),
    ensures
        on_corp_of(active.push(extra), configured),
{
    let (i, j) = choose|i: int, j: int|
        0 <= i < active.len() && 0 <= j < configured.len() && #[trigger] corp_pair(
            active[i]@,
            configured[j]@,
        );
    assert(active.push(extra)[i] == active[i]);
    assert(corp_pair(active.push(extra)[i]@, configured[j]@));
}


/// Normalizing ignores ASCII case.
pub proof fn lemma_normalized_ignores_case(s: Seq<char>)
    ensures
        normalized(lower_seq(s)) == normalized(s),
{
    lemma_lower_commutes(s);
    lemma_lower_commutes(trim(s));
    lemma_lower_commutes(strip_char(trim(s), '.'));
}

/// Matching is case-insensitive: lower-casing an active or a configured
/// suffix never changes whether they match.
pub proof fn law_matching_ignores_case(active: Seq<char>, configured: Seq<char>)
    ensures
        corp_pair(lower_seq(active), configured) == corp_pair(active, configured),
        corp_pair(active, lower_seq(configured)) == corp_pair(active, configured),
{
    lemma_normalized_ignores_case(active);
    lemma_normalized_ignores_case(configured);
}

} // verus!
