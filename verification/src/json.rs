//! What the library reads from a JSON document, through `serde_json`.

use vstd::prelude::*;

verus! {

/// The error of `serde_json`: the library carries it and never looks inside.
#[verifier::external_type_specification]
#[verifier::external_body]
pub struct ExJsonError(serde_json::Error);

/// What `serde_json` finds under `key` at the top of the document `text`:
/// `None` where `text` is no JSON document; `Some(None)` where it is one
/// and holds no integer that fits 64 signed bits under `key`, be it for
/// want of the member, of an object, or of an integer in that range there;
/// `Some(Some(n))` where it holds the integer `n`.
pub uninterp spec fn json_i64_member(text: Seq<char>, key: Seq<char>) -> Option<Option<i64>>;

/// Parses `text` with `serde_json::from_str` into a `serde_json::Value`,
/// indexes the value by `key` and reads the outcome with `Value::as_i64`.
/// The contract claims only that the outcome is a function of the two
/// strings, and that the call fails exactly where the text does not parse.
#[verifier::external_body]
pub(crate) fn read_i64_member(text: &str, key: &str) -> (member: Result<
    Option<i64>,
    serde_json::Error,
>)
    ensures
        member matches Ok(found) ==> json_i64_member(text@, key@) == Some(found),
        member is Err ==> json_i64_member(text@, key@) is None,
{
    let document: serde_json::Value = serde_json::from_str(text)?;
    Ok(document[key].as_i64())
}

} // verus!
