//! Identity and timestamp sources.
//!
//! Every content object carries an opaque string identity. Fresh identities
//! come from a version-4 UUID; lesson plans also record the wall-clock time
//! at which they were created. Both are environment effects, so the calls
//! live behind trusted wrappers and the contracts state only what holds of
//! every outcome.

use vstd::prelude::*;

verus! {

/// Relies on `uuid::Uuid::new_v4` and its `Display` impl: a fresh version-4
/// UUID rendered in the hyphenated format, which is always 36 characters.
/// The value itself is random, so nothing more is promised.
#[verifier::external_body]
pub(crate) fn new_id() -> (r: String)
    ensures
        r@.len() == 36,
{
    uuid::Uuid::new_v4().to_string()
}

/// Relies on `std::time::SystemTime::now`: the current wall-clock time,
/// rendered as whole seconds since the Unix epoch in decimal. The clock is
/// an environment effect, so nothing is promised of the value; a clock set
/// before the epoch yields "0" rather than a panic.
#[verifier::external_body]
pub(crate) fn timestamp_string() -> (r: String)
{
    let secs = std::time::SystemTime::now()
        .duration_since(std::time::UNIX_EPOCH)
        .map(|d| d.as_secs())
        .unwrap_or(0);
    format!("{}", secs)
}

} // verus!
