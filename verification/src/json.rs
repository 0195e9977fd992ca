//! Trusted readers for the provider's JSON bodies: the key document, the
//! refresh response and the structured error body.

use vstd::prelude::*;

use crate::pairs::pairs_view;

verus! {

/// What the provider's JSON text holds when it is an object of string values:
/// the key/value pairs in ascending key order, each key once; `None` when the
/// text is not such an object.
pub uninterp spec fn json_string_map(text: Seq<char>) -> Option<Seq<(Seq<char>, Seq<char>)>>;

/// Relies on serde_json::from_str reading a BTreeMap of String to String:
/// whether the text is a JSON object of string values, and which entries it
/// holds, are functions of the text alone, and the map iterates its entries
/// in ascending key order.
#[verifier::external_body]
pub(crate) fn parse_string_object(text: &str) -> (r: Option<Vec<(String, String)>>)
    ensures
        match r {
            None => json_string_map(text@) is None,
            Some(v) => json_string_map(text@) == Some(pairs_view(v@)),
        },
{
    match serde_json::from_str::<std::collections::BTreeMap<String, String>>(text) {
        Ok(m) => Some(m.into_iter().collect()),
        Err(_) => None,
    }
}

/// The string at `error.message` in a JSON error body, when the body parses
/// and carries one: a function of the text alone.
pub uninterp spec fn fail_message(text: Seq<char>) -> Option<Seq<char>>;

/// Relies on serde_json::from_str reading a Value, and on Value::get and
/// Value::as_str, to pull the string at `error.message` out of a structured
/// error body.
#[verifier::external_body]
pub(crate) fn parse_fail_message(text: &str) -> (r: Option<String>)
    ensures
        match r {
            None => fail_message(text@) is None,
            Some(m) => fail_message(text@) == Some(m@),
        },
{
    let v = serde_json::from_str::<serde_json::Value>(text).ok()?;
    let m = v.get("error")?.get("message")?.as_str()?;
    Some(m.to_string())
}

} // verus!
