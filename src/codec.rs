//! The outside codecs the protocol needs: SHA-1, base64 and JSON.

use vstd::prelude::*;
use vstd::string::*;

verus! {

/// The SHA-1 digest of a byte sequence.
pub uninterp spec fn sha1_of(data: Seq<u8>) -> Seq<u8>;

/// The standard, padded base64 text of a byte sequence.
pub uninterp spec fn base64_text_of(data: Seq<u8>) -> Seq<char>;

/// The bytes that standard base64 text decodes to, if it is well formed.
pub uninterp spec fn base64_bytes_of(text: Seq<u8>) -> Option<Seq<u8>>;

/// Whether text is a JSON document.
pub uninterp spec fn json_parses(text: Seq<char>) -> bool;

/// The string held by member `key` of the JSON object that `text` holds;
/// none where that member is missing or is not a string.
pub uninterp spec fn json_string_member(text: Seq<char>, key: Seq<char>) -> Option<Seq<char>>;

/// Relies on `sha1::Sha1::digest`: a digest of twenty bytes.
#[verifier::external_body]
pub(crate) fn sha1_digest(data: &Vec<u8>) -> (r: Vec<u8>)
    ensures
        r@ == sha1_of(data@),
        r@.len() == 20,
{
    <sha1::Sha1 as sha1::Digest>::digest(data).to_vec()
}

/// Relies on `base64::encode` (standard alphabet, with padding).
#[verifier::external_body]
pub(crate) fn base64_encode(data: &Vec<u8>) -> (r: String)
    ensures
        r@ == base64_text_of(data@),
{
    base64::encode(data)
}

/// Relies on `base64::decode` (standard alphabet, with padding).
#[verifier::external_body]
pub(crate) fn base64_decode(text: &str) -> (r: Option<Vec<u8>>)
    ensures
        match r {
            Some(b) => base64_bytes_of(text.spec_bytes()) == Some(b@),
            None => base64_bytes_of(text.spec_bytes()) is None,
        },
{
    base64::decode(text).ok()
}

/// Relies on `serde_json::from_str` to read `text` as a JSON value, and on
/// `Value::get` and `Value::as_str` to read the string member of each key.
#[verifier::external_body]
pub(crate) fn json_string_members(text: &str, keys: &Vec<&str>) -> (r: Option<Vec<Option<String>>>)
    ensures
        r is Some <==> json_parses(text@),
        r matches Some(v) ==> v@.len() == keys@.len() && forall|i: int|
            0 <= i < keys@.len() ==> match #[trigger] v@[i] {
                Some(s) => json_string_member(text@, keys@[i]@) == Some(s@),
                None => json_string_member(text@, keys@[i]@) is None,
            },
{
    let value: serde_json::Value = serde_json::from_str(text).ok()?;
    Some(keys.iter().map(|k| value.get(*k).and_then(|m| m.as_str()).map(String::from)).collect())
}

} // verus!
