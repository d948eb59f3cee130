//! JSON text, written and checked by `serde_json`.

use vstd::prelude::*;

verus! {

/// The compact JSON text that `serde_json` writes for an object with the given
/// members, where an absent value is written as `null`.
pub uninterp spec fn json_object_text(members: Seq<(Seq<char>, Option<Seq<char>>)>) -> Seq<char>;

/// Whether `serde_json::from_str` reads `text` as one JSON value.
pub uninterp spec fn json_is_valid(text: Seq<char>) -> bool;

/// Collects the members into a `serde_json::Map`, each value through
/// `serde_json::Value::from` (a string, or `null` for an absent one), and
/// writes the object with `Value::to_string`. Nothing is proved of the
/// writer: the contract only gives its text a name, which depends on the
/// members alone.
#[verifier::external_body]
pub(crate) fn json_object_string(members: Vec<(String, Option<String>)>) -> (text: String)
    ensures
        text@ == json_object_text(members.deep_view()),
{
    let map: serde_json::Map<String, serde_json::Value> = members
        .into_iter()
        .map(|(name, value)| (name, serde_json::Value::from(value)))
        .collect();
    serde_json::Value::Object(map).to_string()
}

/// Asks `serde_json::from_str` whether `text` is one JSON value. Nothing is
/// proved of the reader: the contract only gives its verdict a name, which
/// depends on the text alone.
#[verifier::external_body]
pub(crate) fn is_valid_json(text: &str) -> (valid: bool)
    ensures
        valid == json_is_valid(text@),
{
    serde_json::from_str::<serde_json::Value>(text).is_ok()
}

} // verus!
