use vstd::prelude::*;
use crate::transcription::{trim_str, trimmed};

verus! {

/// The string held by the top-level `partial` member of a recognizer
/// result, when the text is a JSON document that has one.
pub uninterp spec fn partial_member(json: Seq<char>) -> Option<Seq<char>>;

/// Relies on `serde_json::from_str` into a `serde_json::Value`, its index
/// by `"partial"` (`Null` when absent) and `Value::as_str`: the result
/// depends on the text alone.
#[verifier::external_body]
fn read_partial_member(json: &str) -> (r: Option<String>)
    ensures
        r is None <==> partial_member(json@) is None,
        r matches Some(t) ==> partial_member(json@) == Some(t@),
{
    serde_json::from_str::<serde_json::Value>(json).ok().and_then(|v| v["partial"].as_str().map(String::from))
}

/// The partial transcript of a recognizer result, trimmed; empty when the
/// result cannot be read or has none.
pub fn vosk_result_to_string(json_string: &str) -> (r: String)
    ensures
        r@ == match partial_member(json_string@) {
            Some(t) => trimmed(t),
            None => Seq::<char>::empty(),
        },
{
    match read_partial_member(json_string) {
        Some(text) => {
            let t = trim_str(text.as_str());
            if t.is_empty() {
                String::new()
            } else {
                String::from_str(t)
            }
        },
        None => String::new(),
    }
}

} // verus!
