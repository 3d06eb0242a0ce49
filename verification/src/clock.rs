//! The monotonic clock type carried through the library's data.
use vstd::prelude::*;

verus! {

/// `std::time::Instant`, carried opaquely (the library never reads it).
#[verifier::external_type_specification]
#[verifier::external_body]
pub struct ExInstant(std::time::Instant);

} // verus!
