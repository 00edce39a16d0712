//! What the client reads out of JSON bodies. The parsing is `serde_json`'s;
//! this module gives what it finds a name, so that the rules built on it can
//! be stated.

use crate::types::opt_text;
use vstd::prelude::*;

verus! {

/// Whether the bytes `body` are a JSON document in the judgement of
/// `serde_json`.
pub uninterp spec fn json_well_formed(body: Seq<u8>) -> bool;

/// The string that the JSON document `body` holds at the JSON pointer
/// `pointer`, as `serde_json` reads them: `None` where `body` is no JSON
/// document, where nothing lies at `pointer`, and where what lies there is
/// not a string.
pub uninterp spec fn json_text_at(body: Seq<u8>, pointer: Seq<char>) -> Option<Seq<char>>;

/// Parses `body` with `serde_json::from_slice` into a `serde_json::Value`,
/// which is dropped: the result tells whether `body` is a JSON document, and
/// holds the parser's error where it is not.
#[verifier::external_body]
pub(crate) fn check_json(body: &[u8]) -> (checked: Result<(), serde_json::Error>)
    ensures
        checked is Ok <==> json_well_formed(body@),
{
    match serde_json::from_slice::<serde_json::Value>(body) {
        Ok(_) => Ok(()),
        Err(err) => Err(err),
    }
}

/// Parses `body` with `serde_json::from_slice` into a `serde_json::Value`,
/// looks `pointer` up in it with `Value::pointer` and reads what is found
/// with `Value::as_str`. The result depends on the bytes and the pointer
/// alone.
#[verifier::external_body]
pub(crate) fn json_string_at(body: &[u8], pointer: &str) -> (text: Option<String>)
    ensures
        opt_text(text) == json_text_at(body@, pointer@),
{
    let value: serde_json::Value = serde_json::from_slice(body).ok()?;
    let text: &str = value.pointer(pointer)?.as_str()?;
    Some(text.to_string())
}

} // verus!
