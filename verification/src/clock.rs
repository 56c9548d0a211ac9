//! The current instant as a stamp.

use vstd::prelude::*;

verus! {

/// `time::OffsetDateTime::now_utc`, formatted by `OffsetDateTime::format` as
/// `time::format_description::well_known::Rfc3339`: the current instant, or
/// nothing where it cannot be so written. Nothing is promised of the text:
/// it depends on the clock.
#[verifier::external_body]
pub(crate) fn utc_now_rfc3339() -> Option<String> {
    time::OffsetDateTime::now_utc().format(&time::format_description::well_known::Rfc3339).ok()
}

} // verus!
