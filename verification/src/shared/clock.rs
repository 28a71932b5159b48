//! The monotonic clock type that frames are stamped with.
use vstd::prelude::*;

verus! {

/// `std::time::Instant`, carried by frames as an opaque timestamp.
#[verifier::external_type_specification]
#[verifier::external_body]
pub struct ExInstant(std::time::Instant);

/// `Instant::now`: the current time of the monotonic clock. Nothing is
/// stated of it.
#[verifier::external_body]
pub(crate) fn now() -> (r: std::time::Instant) {
    std::time::Instant::now()
}

} // verus!
