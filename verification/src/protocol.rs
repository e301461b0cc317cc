//! The two questions this library puts to the HTTP types of `reqwest`:
//! whether a text may travel as a header value, and what the standard phrase
//! for a status code is. Both answers are taken on trust; the contracts
//! below say what is assumed of them.

use vstd::prelude::*;
use vstd::utf8::encode_utf8;

verus! {

/// A byte that a header value may hold: a tab, or anything from the space
/// upwards but the delete character.
pub open spec fn is_header_value_byte(b: u8) -> bool {
    (b >= 32 && b != 127) || b == 9
}

/// A text may travel as a header value when every byte of its UTF-8 form may.
pub open spec fn is_header_value(text: Seq<char>) -> bool {
    forall|i: int|
        0 <= i < encode_utf8(text).len() ==> is_header_value_byte(#[trigger] encode_utf8(text)[i])
}

/// The standard reason phrase of a status code, where there is one.
pub uninterp spec fn reason_phrase(code: u16) -> Option<Seq<char>>;

/// Asks `reqwest::header::HeaderValue::from_str` whether it takes `text`.
/// Trusted: it is assumed to accept exactly the texts whose bytes are all
/// tabs or at least 32 and not 127, which is the test it runs on each byte.
#[verifier::external_body]
pub(crate) fn header_value_accepts(text: &str) -> (accepted: bool)
    ensures
        accepted == is_header_value(text@),
{
    reqwest::header::HeaderValue::from_str(text).is_ok()
}

/// Looks `code` up with `reqwest::StatusCode::canonical_reason`. Trusted: the
/// phrase is assumed to depend on the code alone, and is known to contracts
/// only as [`reason_phrase`]. Codes outside 100..=999 are no status codes to
/// `reqwest` and are kept out.
#[verifier::external_body]
pub(crate) fn canonical_reason(code: u16) -> (phrase: Option<String>)
    requires
        100 <= code <= 999,
    ensures
        match phrase {
            Some(p) => reason_phrase(code) == Some(p@),
            None => reason_phrase(code) is None,
        },
{
    match reqwest::StatusCode::from_u16(code) {
        Ok(status) => status.canonical_reason().map(String::from),
        Err(_) => None,
    }
}

} // verus!
