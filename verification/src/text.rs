//! Field texts: header values, the placeholder, and the query string.

use vstd::prelude::*;
use vstd::string::{StringExecFns, StringSliceAdditionalSpecFns};
use vstd::utf8::{decode_utf8, encode_utf8_decode_utf8, valid_utf8};

verus! {

/// The text that stands for an attribute the request does not supply.
pub open spec fn placeholder() -> Seq<char> {
    seq!['-']
}

/// The text of a header that may be missing: its value where it is present
/// and well-formed UTF-8, the placeholder otherwise.
pub open spec fn header_text(value: Option<Seq<u8>>) -> Seq<char> {
    match value {
        Some(bytes) => if valid_utf8(bytes) {
            decode_utf8(bytes)
        } else {
            placeholder()
        },
        None => placeholder(),
    }
}

/// The text of an attribute that may be missing.
pub open spec fn text_or_placeholder(value: Option<Seq<char>>) -> Seq<char> {
    match value {
        Some(text) => text,
        None => placeholder(),
    }
}

/// The query string as it is emitted: a question mark, then the raw query.
pub open spec fn query_text(raw: Seq<char>) -> Seq<char> {
    seq!['?'] + raw
}

/// The bytes of a header value that may be missing.
pub open spec fn bytes_of(value: Option<Vec<u8>>) -> Option<Seq<u8>> {
    match value {
        Some(bytes) => Some(bytes@),
        None => None,
    }
}

/// The characters of a text that may be missing.
pub open spec fn chars_of(value: Option<String>) -> Option<Seq<char>> {
    match value {
        Some(text) => Some(text@),
        None => None,
    }
}

/// `core::str::from_utf8`: the bytes as text where they are well-formed
/// UTF-8, nothing where they are not. The text returned is made of the very
/// bytes given.
#[verifier::external_body]
fn utf8_text(bytes: &[u8]) -> (text: Option<&str>)
    ensures
        text is Some <==> valid_utf8(bytes@),
        text matches Some(s) ==> s.spec_bytes() == bytes@,
{
    core::str::from_utf8(bytes).ok()
}

/// The placeholder as an owned text.
pub fn placeholder_text() -> (text: String)
    ensures
        text@ == placeholder(),
{
    proof {
        reveal_strlit("-");
    }
    let text = "-".to_owned();
    assert(text@ =~= placeholder());
    text
}

/// The emitted text of a header value that may be missing or malformed.
pub fn header_value(value: &Option<Vec<u8>>) -> (text: String)
    ensures
        text@ == header_text(bytes_of(*value)),
{
    match value {
        Some(bytes) => match utf8_text(bytes.as_slice()) {
            Some(s) => {
                proof {
                    encode_utf8_decode_utf8(s@);
                }
                s.to_owned()
            },
            None => placeholder_text(),
        },
        None => placeholder_text(),
    }
}

/// The emitted text of an attribute that may be missing.
pub fn text_value(value: &Option<String>) -> (text: String)
    ensures
        text@ == text_or_placeholder(chars_of(*value)),
{
    match value {
        Some(s) => s.clone(),
        None => placeholder_text(),
    }
}

/// The emitted text of the raw query.
pub fn query_value(raw: &str) -> (text: String)
    ensures
        text@ == query_text(raw@),
{
    proof {
        reveal_strlit("?");
    }
    let mut text = "?".to_owned();
    text.append(raw);
    assert(text@ =~= query_text(raw@));
    text
}

} // verus!
