//! The process clock. The core records the instant the server was started;
//! the per-tick time measurement and the pacing sleep live with the loop
//! driver outside the verified library.

use vstd::prelude::*;

verus! {

/// External type: `std::time::Instant`, an opaque moment of monotonic time.
#[verifier::external_type_specification]
#[verifier::external_body]
pub struct ExInstant(std::time::Instant);

/// Relies on `std::time::Instant::now`: the current moment of the monotonic
/// clock. The value depends on when the call is made, so nothing is stated
/// of it.
#[verifier::external_body]
pub fn instant_now() -> (r: std::time::Instant) {
    std::time::Instant::now()
}

} // verus!
