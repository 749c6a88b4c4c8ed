//! The one outside call of the engine: deciding whether accumulated
//! tool-input text is valid JSON.

use vstd::prelude::*;

verus! {

/// Whether `s` parses as a JSON value. Validity is decided by the JSON
/// grammar, a function of the characters alone; this name stands for it.
pub uninterp spec fn json_parses(s: Seq<char>) -> bool;

/// Relies on `serde_json::from_str::<serde_json::Value>`: it returns
/// `Ok` exactly on text that is a single well-formed JSON value, and
/// its verdict depends on the characters alone.
#[verifier::external_body]
pub(crate) fn json_is_valid(s: &str) -> (r: bool)
    ensures
        r == json_parses(s.view()),
{
    serde_json::from_str::<serde_json::Value>(s).is_ok()
}

} // verus!
