use vstd::prelude::*;

verus! {

/// Whether a text parses as one JSON value.
pub uninterp spec fn json_text_valid(s: Seq<char>) -> bool;

/// Relies on serde_json::from_str into serde_json::Value: whether it succeeds
/// depends on the text alone.
#[verifier::external_body]
pub(crate) fn is_json(s: &str) -> (r: bool)
    ensures
        r == json_text_valid(s@),
{
    serde_json::from_str::<serde_json::Value>(s).is_ok()
}

/// Relies on chrono::Utc::now and DateTime::to_rfc3339: the current time as
/// RFC 3339 text, never empty.
#[verifier::external_body]
pub(crate) fn now_rfc3339() -> (r: String)
    ensures
        r@.len() > 0,
{
    chrono::Utc::now().to_rfc3339()
}

/// Relies on uuid::Uuid::new_v4 and its Display impl: a random identifier in
/// the hyphenated form, 36 characters long.
#[verifier::external_body]
pub(crate) fn fresh_id() -> (r: String)
    ensures
        r@.len() == 36,
{
    uuid::Uuid::new_v4().to_string()
}

} // verus!
