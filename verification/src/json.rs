//! Trusted declarations for the JSON codec collaborator. Response bodies
//! are JSON; the serde_json crate reads them, and each reading here goes
//! from a plain string to plain values. What a reading returns is a
//! function of its string arguments alone, so each result carries a name
//! (an uninterpreted spec function) that the verified decoding logic's
//! contracts are stated over; nothing else is assumed of the JSON codec.

use vstd::prelude::*;

verus! {

/// The JSON decoder's rendered message for `doc`, when `doc` does not
/// parse as a JSON document; `None` when it parses.
pub uninterp spec fn parse_error_of(doc: Seq<char>) -> Option<Seq<char>>;

/// The text of the `key` member of the JSON document `doc`, when `doc`
/// parses as an object whose `key` member is a string; `None` otherwise.
pub uninterp spec fn string_member_of(doc: Seq<char>, key: Seq<char>) -> Option<Seq<char>>;

/// Whether `doc` parses as an object holding a non-null `key` member.
pub uninterp spec fn member_non_null_of(doc: Seq<char>, key: Seq<char>) -> bool;

/// The text of the `inner` member of the `outer` member of `doc`, when
/// `doc` parses, `outer` leads to an object, and that object's `inner`
/// member is a string; `None` otherwise.
pub uninterp spec fn nested_string_member_of(
    doc: Seq<char>,
    outer: Seq<char>,
    inner: Seq<char>,
) -> Option<Seq<char>>;

/// The value of the `inner` member of the `outer` member of `doc`, when
/// that member is a number representable as a u64; `None` otherwise.
pub uninterp spec fn nested_u64_member_of(
    doc: Seq<char>,
    outer: Seq<char>,
    inner: Seq<char>,
) -> Option<u64>;

/// Relies on serde_json::from_str::<Value> and on serde_json::Error's
/// `Display` implementation: the decoder's rendered message when the
/// document does not parse. Both are functions of the document text
/// alone.
#[verifier::external_body]
pub(crate) fn parse_error(doc: &str) -> (r: Option<String>)
    ensures
        match r {
            Some(m) => parse_error_of(doc@) == Some(m@),
            None => parse_error_of(doc@) is None,
        },
{
    match serde_json::from_str::<serde_json::Value>(doc) {
        Ok(_) => None,
        Err(e) => Some(e.to_string()),
    }
}

/// Relies on serde_json::from_str::<Value>, Value::get and Value::as_str:
/// the string under `key` in the parsed document. The result is a
/// function of the two strings alone.
#[verifier::external_body]
pub(crate) fn string_member(doc: &str, key: &str) -> (r: Option<String>)
    ensures
        match r {
            Some(v) => string_member_of(doc@, key@) == Some(v@),
            None => string_member_of(doc@, key@) is None,
        },
{
    let value: serde_json::Value = serde_json::from_str(doc).ok()?;
    Some(value.get(key)?.as_str()?.to_string())
}

/// Relies on serde_json::from_str::<Value>, Value::get and Value::is_null:
/// whether the parsed document holds a non-null `key` member. The result
/// is a function of the two strings alone.
#[verifier::external_body]
pub(crate) fn member_non_null(doc: &str, key: &str) -> (r: bool)
    ensures
        r == member_non_null_of(doc@, key@),
{
    match serde_json::from_str::<serde_json::Value>(doc) {
        Ok(value) => match value.get(key) {
            Some(member) => !member.is_null(),
            None => false,
        },
        Err(_) => false,
    }
}

/// Relies on serde_json::from_str::<Value>, Value::get and Value::as_str:
/// the string two member lookups deep in the parsed document. The result
/// is a function of the three strings alone.
#[verifier::external_body]
pub(crate) fn nested_string_member(doc: &str, outer: &str, inner: &str) -> (r: Option<String>)
    ensures
        match r {
            Some(v) => nested_string_member_of(doc@, outer@, inner@) == Some(v@),
            None => nested_string_member_of(doc@, outer@, inner@) is None,
        },
{
    let value: serde_json::Value = serde_json::from_str(doc).ok()?;
    Some(value.get(outer)?.get(inner)?.as_str()?.to_string())
}

/// Relies on serde_json::from_str::<Value>, Value::get and Value::as_u64:
/// the u64 number two member lookups deep in the parsed document. The
/// result is a function of the three strings alone.
#[verifier::external_body]
pub(crate) fn nested_u64_member(doc: &str, outer: &str, inner: &str) -> (r: Option<u64>)
    ensures
        match r {
            Some(n) => nested_u64_member_of(doc@, outer@, inner@) == Some(n),
            None => nested_u64_member_of(doc@, outer@, inner@) is None,
        },
{
    let value: serde_json::Value = serde_json::from_str(doc).ok()?;
    value.get(outer)?.get(inner)?.as_u64()
}

} // verus!
