use vstd::prelude::*;

use crate::domain::event::EventPayload;
use crate::store::spec::shutdown_reason;

verus! {

/// The boolean member `key` of the JSON object in `text`, as `serde_json`
/// reads it: `None` when the text is not JSON, is not an object, lacks the
/// member, or the member is not a boolean.
pub uninterp spec fn json_bool_member(text: Seq<char>, key: Seq<char>) -> Option<bool>;

/// Parses `text` with `serde_json::from_str` into a `serde_json::Value`,
/// looks the member up with `Value::get` and reads it with
/// `Value::as_bool`. The contract claims only that the answer is a function
/// of the text and the key.
#[verifier::external_body]
fn payload_bool_member(text: &str, key: &str) -> (r: Option<bool>)
    ensures
        r == json_bool_member(text@, key@),
{
    match serde_json::from_str::<serde_json::Value>(text) {
        Ok(v) => match v.get(key) {
            Some(m) => m.as_bool(),
            None => None,
        },
        Err(_) => None,
    }
}

/// The error text of a simulated processing failure.
pub open spec fn simulated_failure() -> Seq<char> {
    "Simulated failure"@
}

/// Whether a payload asks its simulated work to fail: its member `fail`
/// is `true`.
pub open spec fn requests_failure(payload: EventPayload) -> bool {
    json_bool_member(payload.0@, "fail"@) == Some(true)
}

/// The result with which a worker finishes an event: the shutdown error
/// when a shutdown is under way (so that the event is retried at once), a
/// simulated failure when the payload asks for one, success otherwise.
pub fn worker_result(shutting_down: bool, payload: &EventPayload) -> (r: Result<(), String>)
    ensures
        shutting_down ==> (r matches Err(e) && e@ == shutdown_reason()),
        !shutting_down && requests_failure(*payload) ==> (r matches Err(e) && e@
            == simulated_failure()),
        !shutting_down && !requests_failure(*payload) ==> r == Ok::<(), String>(()),
{
    if shutting_down {
        return Err(String::from_str("Shutting down"));
    }
    match payload_bool_member(payload.0.as_str(), "fail") {
        Some(true) => Err(String::from_str("Simulated failure")),
        _ => Ok(()),
    }
}

} // verus!
