//! Spans of time that the library hands out.

use std::time::Duration;
use vstd::prelude::*;

verus! {

/// The span of time that lasts the given number of whole seconds.
pub uninterp spec fn seconds(secs: u64) -> Duration;

/// Calls `Duration::from_secs` of the standard library, which is not verified
/// here. The contract claims that the span returned is the one of that many
/// whole seconds, and the same one whenever the number is the same.
#[verifier::external_body]
pub(crate) fn duration_from_secs(secs: u64) -> (span: Duration)
    ensures
        span == seconds(secs),
{
    Duration::from_secs(secs)
}

/// `Clone::clone` of a `Duration` of the standard library: a span of time is
/// copied as it is.
pub assume_specification[ <Duration as Clone>::clone ](span: &Duration) -> (copy: Duration)
    ensures
        copy == *span,
;

} // verus!
