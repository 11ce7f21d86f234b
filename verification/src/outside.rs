//! The calls this library makes into code it does not verify: the JSON reader,
//! the URL parser and the standard library's UTF-8 decoding. Each item states
//! what the crate's documentation or source shows; nothing here is proved.
use vstd::prelude::*;
use vstd::utf8::*;

verus! {

/// `serde_json::Value`, a parsed JSON document, carried through unread.
#[verifier::external_type_specification]
#[verifier::external_body]
pub struct ExJsonValue(serde_json::Value);

/// `reqwest::Url` (the `url` crate's `Url`), carried through unread.
#[verifier::external_type_specification]
#[verifier::external_body]
pub struct ExUrl(reqwest::Url);

/// What `serde_json::from_slice::<serde_json::Value>` gives for `bytes`: the
/// JSON value they hold, or the text of the reader's error.
pub uninterp spec fn json_parse(bytes: Seq<u8>) -> Result<serde_json::Value, Seq<char>>;

/// What `reqwest::Url::parse` gives for `text`: the parsed URL, or the text
/// of the parser's error.
pub uninterp spec fn url_parse_result(text: Seq<char>) -> Result<reqwest::Url, Seq<char>>;

/// The text that `String::from_utf8_lossy` makes of `bytes`.
pub uninterp spec fn lossy_text(bytes: Seq<u8>) -> Seq<char>;

/// Calls `serde_json::from_slice::<serde_json::Value>` and renders its error
/// with `to_string`. Claimed: the value, or the error text, is a function of
/// the bytes alone (the reader has a fixed recursion limit and keeps objects
/// in ordered maps). What a value holds is not spelled out.
#[verifier::external_body]
pub(crate) fn json_from_slice(bytes: &[u8]) -> (r: Result<serde_json::Value, String>)
    ensures
        match r {
            Ok(v) => json_parse(bytes@) == Ok::<serde_json::Value, Seq<char>>(v),
            Err(e) => json_parse(bytes@) == Err::<serde_json::Value, Seq<char>>(e@),
        },
{
    serde_json::from_slice::<serde_json::Value>(bytes).map_err(|e| e.to_string())
}

/// Calls `reqwest::Url::parse` and renders its error with `to_string`.
/// Claimed: the URL, or the error text, is a function of the text alone.
/// What a URL holds is not spelled out.
#[verifier::external_body]
pub(crate) fn url_parse(text: &str) -> (r: Result<reqwest::Url, String>)
    ensures
        match r {
            Ok(u) => url_parse_result(text@) == Ok::<reqwest::Url, Seq<char>>(u),
            Err(e) => url_parse_result(text@) == Err::<reqwest::Url, Seq<char>>(e@),
        },
{
    reqwest::Url::parse(text).map_err(|e| e.to_string())
}

/// Calls `std::str::from_utf8`. Claimed, as its documentation says: it
/// succeeds exactly on well-formed UTF-8, and then gives the characters that
/// the bytes encode.
#[verifier::external_body]
pub(crate) fn utf8_str(bytes: &[u8]) -> (r: Option<&str>)
    ensures
        r is Some <==> valid_utf8(bytes@),
        r matches Some(s) ==> s@ == decode_utf8(bytes@),
{
    std::str::from_utf8(bytes).ok()
}

/// Calls `String::from_utf8_lossy`. Claimed: the result is a function of the
/// bytes alone; on well-formed UTF-8 it is the decoded text, as the
/// documentation says; and, since every byte yields at least one character
/// (decoded or U+FFFD), it is empty exactly when the bytes are.
#[verifier::external_body]
pub(crate) fn utf8_lossy(bytes: &[u8]) -> (r: String)
    ensures
        r@ == lossy_text(bytes@),
        valid_utf8(bytes@) ==> r@ == decode_utf8(bytes@),
        r@.len() == 0 <==> bytes@.len() == 0,
{
    String::from_utf8_lossy(bytes).into_owned()
}

} // verus!
