//! Trusted bridge to the system clock.

use vstd::prelude::*;

verus! {

/// Relies on `chrono`'s `DateTime<Utc>` conversion and its `%+` format
/// specifier: renders the current instant as an ISO-8601 timestamp with an
/// explicit offset. The result depends on the clock, so nothing is assumed
/// of its value.
#[verifier::external_body]
pub(crate) fn now_iso8601() -> (r: String) {
    let dt: chrono::DateTime<chrono::Utc> = std::time::SystemTime::now().into();
    format!("{}", dt.format("%+"))
}

} // verus!
