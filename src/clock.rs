//! The local wall clock, as text.

use vstd::prelude::*;

verus! {

/// Relies on chrono's `Local::now` and `DateTime::format` ("%Y%m%d_%H%M%S"):
/// a timestamp for file names. Nothing is assumed of its value.
#[verifier::external_body]
pub(crate) fn local_stamp() -> (r: String) {
    chrono::Local::now().format("%Y%m%d_%H%M%S").to_string()
}

/// Relies on chrono's `Local::now` and `DateTime::format` ("%Y.%m.%d"): today's
/// date as a default for history requests. Nothing is assumed of its value.
#[verifier::external_body]
pub(crate) fn local_date() -> (r: String) {
    chrono::Local::now().format("%Y.%m.%d").to_string()
}

} // verus!
