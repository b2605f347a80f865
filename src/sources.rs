use vstd::prelude::*;

verus! {

/// Relies on uuid::Uuid::new_v4 and Uuid::as_u128: a random version-4
/// identifier as its 128 bits. Nothing is promised of a random value.
#[verifier::external_body]
pub(crate) fn fresh_id() -> (r: u128) {
    uuid::Uuid::new_v4().as_u128()
}

/// Relies on chrono's `From<SystemTime> for DateTime<Utc>` and
/// DateTime::timestamp_micros: the current time in microseconds since the
/// Unix epoch, negative for a clock set before it. Nothing is promised of the
/// clock.
#[verifier::external_body]
pub(crate) fn now_micros() -> (r: i64) {
    chrono::DateTime::<chrono::Utc>::from(std::time::SystemTime::now()).timestamp_micros()
}

} // verus!
