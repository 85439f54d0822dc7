//! Negotiate proxy-auth header parsing and building.

use crate::b64::{b64_decode, b64_decoded, b64_encode, b64_encoded, is_b64_char, lemma_b64_shape};
use crate::text::{
    chars_of, eq_ignore_case, eq_ignore_case_exec, find_ws, find_ws_from, is_ws, lemma_trim_unchanged,
    lower_seq, push_char, slice_chars, string_of, trim, trimmed,
};
use vstd::prelude::*;
use vstd::string::StringExecFns;
use vstd::utf8::encode_utf8;

verus! {

/// What a `Proxy-Authenticate` header offers for the Negotiate scheme.
#[derive(Debug, Clone, PartialEq, Eq)]
pub enum NegotiateOffer {
    /// The header does not offer Negotiate.
    NotOffered,
    /// Negotiate is offered with no token (the initial challenge).
    Offered,
    /// Negotiate is offered with a decoded continuation token.
    Challenge(Vec<u8>),
}

/// The abstract value of a [`NegotiateOffer`].
pub enum OfferView {
    NotOffered,
    Offered,
    Challenge(Seq<u8>),
}

impl View for NegotiateOffer {
    type V = OfferView;

    open spec fn view(&self) -> OfferView {
        match self {
            NegotiateOffer::NotOffered => OfferView::NotOffered,
            NegotiateOffer::Offered => OfferView::Offered,
            NegotiateOffer::Challenge(b) => OfferView::Challenge(b@),
        }
    }
}

/// The scheme name `negotiate`.
pub open spec fn negotiate_word() -> Seq<char> {
    seq!['n', 'e', 'g', 'o', 't', 'i', 'a', 't', 'e']
}

/// The offer in a `Proxy-Authenticate` value: after trimming, the scheme is the
/// text up to the first whitespace and must be `negotiate` in any ASCII case;
/// the rest after that whitespace, trimmed, is the base64 token. A missing,
/// empty or undecodable token is a bare offer.
pub open spec fn offer_of(value: Seq<char>) -> OfferView {
    let v = trim(value);
    let w = find_ws(v, 0);
    if !eq_ignore_case(v.subrange(0, w), negotiate_word()) {
        OfferView::NotOffered
    } else if w >= v.len() {
        OfferView::Offered
    } else {
        let token = trim(v.subrange(w + 1, v.len() as int));
        if token.len() == 0 {
            OfferView::Offered
        } else {
            match b64_decoded(token) {
                Some(bytes) => OfferView::Challenge(bytes),
                None => OfferView::Offered,
            }
        }
    }
}

/// The token text a `Proxy-Authenticate` value hands to the base64 decoder:
/// present when the scheme is `negotiate` and something non-blank follows it.
pub open spec fn offer_token(value: Seq<char>) -> Option<Seq<char>> {
    let v = trim(value);
    let w = find_ws(v, 0);
    if eq_ignore_case(v.subrange(0, w), negotiate_word()) && w < v.len() {
        let token = trim(v.subrange(w + 1, v.len() as int));
        if token.len() > 0 {
            Some(token)
        } else {
            None
        }
    } else {
        None
    }
}

/// `Negotiate ` followed by the base64 of `token`.
pub open spec fn negotiate_authorization(token: Seq<u8>) -> Seq<char> {
    seq!['N', 'e', 'g', 'o', 't', 'i', 'a', 't', 'e', ' '] + b64_encoded(token)
}

/// The UTF-8 bytes of `username:password`.
pub open spec fn basic_credential_bytes(username: Seq<char>, password: Seq<char>) -> Seq<u8> {
    encode_utf8(username + seq![':'] + password)
}

/// `Basic ` followed by the base64 of `username:password` (RFC 7617).
pub open spec fn basic_authorization(username: Seq<char>, password: Seq<char>) -> Seq<char> {
    seq!['B', 'a', 's', 'i', 'c', ' '] + b64_encoded(basic_credential_bytes(username, password))
}

fn negotiate_chars() -> (v: Vec<char>)
    ensures
        v@ == negotiate_word(),
{
    let v = vec!['n', 'e', 'g', 'o', 't', 'i', 'a', 't', 'e'];
    assert(v@ =~= negotiate_word());
    v
}

/// Parse a single `Proxy-Authenticate` header value for a Negotiate offer.
pub fn parse_proxy_authenticate(value: &str) -> (offer: NegotiateOffer)
    ensures
        offer@ == offer_of(value@),
        forall|b: Seq<u8>|
            offer_token(value@) == Some(#[trigger] b64_encoded(b)) ==> offer@ == OfferView::Challenge(b),
{
    let all = chars_of(value);
    let v = trimmed(&all);
    let w = find_ws_from(&v, 0);
    let scheme = slice_chars(&v, 0, w);
    let word = negotiate_chars();
    if !eq_ignore_case_exec(&scheme, &word) {
        return NegotiateOffer::NotOffered;
    }
    if w >= v.len() {
        return NegotiateOffer::Offered;
    }
    let rest = slice_chars(&v, w + 1, v.len());
    let token = trimmed(&rest);
    if token.len() == 0 {
        return NegotiateOffer::Offered;
    }
    let text = string_of(&token);
    match b64_decode(text.as_str()) {
        Some(bytes) => NegotiateOffer::Challenge(bytes),
        // A malformed token is treated as a bare offer rather than fatal.
        None => NegotiateOffer::Offered,
    }
}

/// Build a `Proxy-Authorization` header value carrying a Negotiate token.
pub fn build_proxy_authorization(token: &[u8]) -> (value: String)
    ensures
        value@ == negotiate_authorization(token@),
        token@.len() > 0 ==> offer_token(value@) == Some(b64_encoded(token@)),
{
    let mut value = String::from_str("Negotiate ");
    proof {
        reveal_strlit("Negotiate ");
    }
    let encoded = b64_encode(token);
    value.append(encoded.as_str());
    assert(value@ =~= negotiate_authorization(token@));
    proof {
        lemma_b64_shape(token@);
        if token@.len() > 0 {
            lemma_built_token_text(token@, encoded@);
        }
    }
    value
}

/// Build a `Proxy-Authorization` header value carrying HTTP Basic credentials
/// (`Basic base64(username:password)`, per RFC 7617). The password may be empty.
pub fn build_basic_authorization(username: &str, password: &str) -> (value: String)
    ensures
        value@ == basic_authorization(username@, password@),
{
    let mut joined = String::from_str(username);
    push_char(&mut joined, ':');
    joined.append(password);
    let bytes = joined.as_str().as_bytes();
    assert(joined@ =~= username@ + seq![':'] + password@);
    let encoded = b64_encode(bytes);
    let mut value = String::from_str("Basic ");
    proof {
        reveal_strlit("Basic ");
    }
    value.append(encoded.as_str());
    assert(value@ =~= basic_authorization(username@, password@));
    value
}

/// The token text of a header built from a non-empty base64 `text` is
/// `text` itself.
proof fn lemma_built_token_text(token: Seq<u8>, text: Seq<char>)
    requires
        token.len() > 0,
        text == b64_encoded(token),
        text.len() == 4 * ((token.len() + 2) / 3),
        forall|i: int| 0 <= i < text.len() ==> is_b64_char(#[trigger] text[i]),
    ensures
        offer_token(negotiate_authorization(token)) == Some(text),
{
    let h = negotiate_authorization(token);
    let head = seq!['N', 'e', 'g', 'o', 't', 'i', 'a', 't', 'e', ' '];
    assert(h =~= head + text);
    assert(text.len() > 0);
    assert(!is_ws(h[0]));
    assert(h[h.len() - 1] == text[text.len() - 1]);
    assert(is_b64_char(text[text.len() - 1]));
    lemma_trim_unchanged(h);
    // The first whitespace of the header is the space after the scheme.
    assert(find_ws(h, 0) == 9) by {
        assert(h[0] == 'N');
        assert(h[1] == 'e');
        assert(h[2] == 'g');
        assert(h[3] == 'o');
        assert(h[4] == 't');
        assert(h[5] == 'i');
        assert(h[6] == 'a');
        assert(h[7] == 't');
        assert(h[8] == 'e');
        assert(h[9] == ' ');
        reveal_with_fuel(find_ws, 11);
    }
    assert(lower_seq(h.subrange(0, 9)) =~= negotiate_word());
    assert(lower_seq(negotiate_word()) =~= negotiate_word());
    let rest = h.subrange(10, h.len() as int);
    assert(rest =~= text);
    assert(!is_ws(text[0]));
    lemma_trim_unchanged(text);
}

} // verus!
