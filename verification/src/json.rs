//! Reading one member out of a JSON text with `serde_json`.

use vstd::prelude::*;

verus! {

/// `serde_json::Error`, carried through as it comes.
#[verifier::external_type_specification]
#[verifier::external_body]
pub struct ExJsonError(serde_json::Error);

/// What `serde_json` finds in `text` under `key`: `None` where it does not
/// take `text` for one JSON value, `Some(None)` where it does but the value
/// holds no string under `key` (it is no object, it has no such member, or
/// the member is not a string), and `Some(Some(s))` where the member under
/// `key` is the string `s`.
pub uninterp spec fn json_string_member(text: Seq<u8>, key: Seq<char>) -> Option<Option<Seq<char>>>;

/// Parses `text` with `serde_json::from_slice` into a `serde_json::Value`,
/// indexes the value by `key`, which gives `Value::Null` where the value is
/// no object or has no such member, and asks `Value::as_str` for the string
/// there. Nothing here is proved. The contract claims that the outcome is
/// the one that [`json_string_member`] names, that is, that it depends on
/// `text` and `key` and on nothing else.
#[verifier::external_body]
fn lookup(text: &[u8], key: &str) -> (found: Result<Option<String>, serde_json::Error>)
    ensures
        match found {
            Ok(Some(s)) => json_string_member(text@, key@) == Some(Some(s@)),
            Ok(None) => json_string_member(text@, key@) == Some(None::<Seq<char>>),
            Err(_) => json_string_member(text@, key@) is None,
        },
{
    let document: serde_json::Value = serde_json::from_slice(text)?;
    Ok(document[key].as_str().map(str::to_owned))
}

/// The string that a JSON text holds under `key`, or why there is none:
/// `Err` with the parser's words where the text is not JSON, `Ok(None)`
/// where it is but has no string under `key`.
pub fn string_member(text: &[u8], key: &str) -> (found: Result<Option<String>, String>)
    ensures
        match found {
            Ok(Some(s)) => json_string_member(text@, key@) == Some(Some(s@)),
            Ok(None) => json_string_member(text@, key@) == Some(None::<Seq<char>>),
            Err(_) => json_string_member(text@, key@) is None,
        },
{
    match lookup(text, key) {
        Ok(member) => Ok(member),
        Err(e) => Err(e.to_string()),
    }
}

} // verus!
