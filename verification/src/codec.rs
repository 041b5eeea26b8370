//! Encodings that the engine's protocol uses: base64, UTF-8 and JSON.

use vstd::prelude::*;
use vstd::utf8::{encode_utf8, valid_utf8};

verus! {

/// Why `base64::decode` rejected a text. Carried through, never read.
#[verifier::external_type_specification]
#[verifier::external_body]
pub struct ExDecodeError(base64::DecodeError);

/// Why `String::from_utf8` rejected its bytes. Carried through, never read.
#[verifier::external_type_specification]
#[verifier::external_body]
pub struct ExFromUtf8Error(std::string::FromUtf8Error);

/// Why `serde_json` failed. Carried through, never read.
#[verifier::external_type_specification]
#[verifier::external_body]
pub struct ExJsonError(serde_json::Error);

/// The bytes that `text` stands for in standard base64, or `None` where
/// `text` is not base64.
pub uninterp spec fn base64_decoded(text: Seq<char>) -> Option<Seq<u8>>;

/// The standard base64 text of `bytes`.
pub uninterp spec fn base64_encoded(bytes: Seq<u8>) -> Seq<char>;

/// The JSON string literal for `text`: quoted, and escaped where JSON asks
/// for it.
pub uninterp spec fn json_quoted(text: Seq<char>) -> Seq<char>;

/// The string that the JSON document `text` holds under `key`: `None`
/// where `text` is not JSON, is no object, or holds no string there.
pub uninterp spec fn json_text_member(text: Seq<char>, key: Seq<char>) -> Option<Seq<char>>;

/// The members of the JSON object that the document `text` holds under
/// `key`, in the order in which the parser hands them out, each as its name
/// and the JSON text of its value: `None` where `text` is not JSON, is no
/// object, or holds no object there.
pub uninterp spec fn json_object_members(text: Seq<char>, key: Seq<char>) -> Option<
    Seq<(Seq<char>, Seq<char>)>,
>;

/// Pairs of strings as pairs of sequences of characters.
pub open spec fn text_pairs(pairs: Seq<(String, String)>) -> Seq<(Seq<char>, Seq<char>)> {
    Seq::new(pairs.len(), |i: int| (pairs[i].0@, pairs[i].1@))
}

/// Calls `base64::decode`.
///
/// Trusted: the decoder's answer depends on `text` alone, so it is named
/// `base64_decoded(text@)`. Nothing is claimed about which texts decode. The
/// decoder panics only on a length that overflows `usize` when 3 is added,
/// which no slice has.
#[verifier::external_body]
pub(crate) fn base64_decode(text: &str) -> (res: Result<Vec<u8>, base64::DecodeError>)
    ensures
        res is Ok <==> base64_decoded(text@) is Some,
        res matches Ok(bytes) ==> base64_decoded(text@) == Some(bytes@),
{
    base64::decode(text)
}

/// Calls `base64::encode`.
///
/// Trusted: the encoder's answer depends on `bytes` alone, so it is named
/// `base64_encoded(bytes@)`. The encoder panics only on a length whose
/// encoding overflows `usize`, which no slice has.
#[verifier::external_body]
pub(crate) fn base64_encode(bytes: &[u8]) -> (res: String)
    ensures
        res@ == base64_encoded(bytes@),
{
    base64::encode(bytes)
}

/// `String::from_utf8` accepts exactly the valid UTF-8 byte strings, and the
/// string it returns consists of the bytes it was given.
pub assume_specification[ String::from_utf8 ](bytes: Vec<u8>) -> (res: Result<
    String,
    std::string::FromUtf8Error,
>)
    ensures
        res is Ok <==> valid_utf8(bytes@),
        res matches Ok(s) ==> encode_utf8(s@) == bytes@,
;

/// Calls `serde_json::to_string` on a string slice.
///
/// Trusted: the serialiser's answer depends on `text` alone, so it is named
/// `json_quoted(text@)`. It is `Ok` because a string serialises by writing
/// into a `Vec`, and the serialiser fails only where a write fails.
#[verifier::external_body]
pub(crate) fn json_quote(text: &str) -> (res: Result<String, serde_json::Error>)
    ensures
        res is Ok,
        res matches Ok(quoted) ==> quoted@ == json_quoted(text@),
{
    serde_json::to_string(text)
}

/// Calls `serde_json::from_str` for a `serde_json::Value` and reads the
/// string under `key` with `Value::get` and `Value::as_str`.
///
/// Trusted: the answer depends on `text` and `key` alone, so it is named
/// `json_text_member(text@, key@)`. Nothing is claimed about which
/// documents hold a string under which key.
#[verifier::external_body]
pub(crate) fn json_member(text: &str, key: &str) -> (res: Option<String>)
    ensures
        res is Some <==> json_text_member(text@, key@) is Some,
        res matches Some(s) ==> json_text_member(text@, key@) == Some(s@),
{
    let value: serde_json::Value = serde_json::from_str(text).ok()?;
    value.get(key)?.as_str().map(|s| s.to_string())
}

/// Calls `serde_json::from_str` for a `serde_json::Value`, reads the object
/// under `key` with `Value::get` and `Value::as_object`, and hands out its
/// members: each name, and each value as the JSON text that its `Display`
/// writes.
///
/// Trusted: the answer depends on `text` and `key` alone, so it is named
/// `json_object_members(text@, key@)`. Nothing is claimed about which
/// documents hold an object under which key, nor about its members.
#[verifier::external_body]
pub(crate) fn json_members(text: &str, key: &str) -> (res: Option<Vec<(String, String)>>)
    ensures
        res is Some <==> json_object_members(text@, key@) is Some,
        res matches Some(members) ==> json_object_members(text@, key@) == Some(
            text_pairs(members@),
        ),
{
    let value: serde_json::Value = serde_json::from_str(text).ok()?;
    let object = value.get(key)?.as_object()?;
    Some(object.iter().map(|(name, member)| (name.clone(), member.to_string())).collect())
}

} // verus!
