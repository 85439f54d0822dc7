//! The base64 (standard alphabet, padded) calls the header code makes.

use base64::engine::general_purpose::STANDARD;
use base64::Engine;
use vstd::prelude::*;

verus! {

/// The character of the standard base64 alphabet (RFC 4648) for a six-bit
/// value.
pub open spec fn b64_digit(v: int) -> char {
    if v < 26 {
        (65 + v) as char
    } else if v < 52 {
        (97 + (v - 26)) as char
    } else if v < 62 {
        (48 + (v - 52)) as char
    } else if v == 62 {
        '+'
    } else {
        '/'
    }
}

/// Padded standard base64 (RFC 4648): each group of three bytes becomes
/// four alphabet characters; a final group of one or two bytes is padded
/// with `=` to four.
pub open spec fn b64_encoded(bytes: Seq<u8>) -> Seq<char>
    decreases bytes.len(),
{
    if bytes.len() == 0 {
        Seq::empty()
    } else if bytes.len() == 1 {
        let x = bytes[0] as int;
        seq![b64_digit(x / 4), b64_digit((x % 4) * 16), '=', '=']
    } else if bytes.len() == 2 {
        let x = bytes[0] as int;
        let y = bytes[1] as int;
        seq![b64_digit(x / 4), b64_digit((x % 4) * 16 + y / 16), b64_digit((y % 16) * 4), '=']
    } else {
        let x = bytes[0] as int;
        let y = bytes[1] as int;
        let z = bytes[2] as int;
        seq![
            b64_digit(x / 4),
            b64_digit((x % 4) * 16 + y / 16),
            b64_digit((y % 16) * 4 + z / 64),
            b64_digit(z % 64),
        ] + b64_encoded(bytes.subrange(3, bytes.len() as int))
    }
}

/// What `STANDARD.decode` yields for `text`: `Some` with the decoded bytes, or
/// `None` where it reports a `DecodeError`.
pub uninterp spec fn b64_decoded(text: Seq<char>) -> Option<Seq<u8>>;

/// A character of the standard base64 alphabet, or the `=` pad.
pub open spec fn is_b64_char(c: char) -> bool {
    ||| 'A' <= c <= 'Z'
    ||| 'a' <= c <= 'z'
    ||| '0' <= c <= '9'
    ||| c == '+'
    ||| c == '/'
    ||| c == '='
}

/// Every six-bit value's character is in the alphabet.
pub proof fn lemma_b64_digit(v: int)
    requires
        0 <= v < 64,
    ensures
        is_b64_char(b64_digit(v)),
{
}

/// The encoding is `4 * ceil(n / 3)` characters of the alphabet and pad.
pub proof fn lemma_b64_shape(bytes: Seq<u8>)
    ensures
        b64_encoded(bytes).len() == 4 * ((bytes.len() + 2) / 3),
        forall|i: int| 0 <= i < b64_encoded(bytes).len() ==> is_b64_char(#[trigger] b64_encoded(bytes)[i]),
    decreases bytes.len(),
{
    if bytes.len() > 0 {
        let x = bytes[0] as int;
        lemma_b64_digit(x / 4);
        if bytes.len() == 1 {
            lemma_b64_digit((x % 4) * 16);
        } else {
            let y = bytes[1] as int;
            lemma_b64_digit((x % 4) * 16 + y / 16);
            if bytes.len() == 2 {
                lemma_b64_digit((y % 16) * 4);
            } else {
                let z = bytes[2] as int;
                lemma_b64_digit((y % 16) * 4 + z / 64);
                lemma_b64_digit(z % 64);
                let rest = bytes.subrange(3, bytes.len() as int);
                lemma_b64_shape(rest);
                let head = seq![
                    b64_digit(x / 4),
                    b64_digit((x % 4) * 16 + y / 16),
                    b64_digit((y % 16) * 4 + z / 64),
                    b64_digit(z % 64),
                ];
                assert forall|i: int| 0 <= i < b64_encoded(bytes).len() implies is_b64_char(
                    #[trigger] b64_encoded(bytes)[i],
                ) by {
                    if i >= 4 {
                        assert(b64_encoded(bytes)[i] == b64_encoded(rest)[i - 4]);
                    }
                }
            }
        }
    }
}

/// `STANDARD.encode(bytes)`.
///
/// Trusted: the result is the padded standard base64 of `bytes` as RFC 4648
/// defines it (`b64_encoded`), which is what the crate's `STANDARD` engine
/// produces. The crate panics only when the encoded length overflows
/// `usize`, which no slice can reach: a slice holds at most `isize::MAX`
/// bytes.
#[verifier::external_body]
pub(crate) fn b64_encode(bytes: &[u8]) -> (text: String)
    ensures
        text@ == b64_encoded(bytes@),
{
    STANDARD.encode(bytes)
}

/// `STANDARD.decode(text)`, with the `DecodeError` dropped.
///
/// Trusted: the result is named by `b64_decoded`, and decoding the text that
/// `STANDARD.encode` produced gives the encoded bytes back.
#[verifier::external_body]
pub(crate) fn b64_decode(text: &str) -> (bytes: Option<Vec<u8>>)
    ensures
        match bytes {
            Some(v) => b64_decoded(text@) == Some(v@),
            None => b64_decoded(text@) is None,
        },
        forall|b: Seq<u8>|
            #[trigger] b64_encoded(b) == text@ ==> (bytes is Some && bytes->Some_0@ == b),
{
    STANDARD.decode(text).ok()
}

} // verus!
