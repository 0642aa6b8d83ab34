use vstd::prelude::*;

verus! {

/// `std::time::Instant`, which vstd gives no specification. Values of it
/// are taken, stored and handed back, never inspected.
#[verifier::external_type_specification]
#[verifier::external_body]
pub struct ExInstant(std::time::Instant);

/// Relies on `std::time::Instant::now`: the reading depends on the clock,
/// so nothing is promised of it.
pub assume_specification[ std::time::Instant::now ]() -> (r: std::time::Instant);

/// Relies on `std::time::Instant::clone`: `Instant` is `Copy`, so the clone
/// is the instant itself.
pub assume_specification[ <std::time::Instant as Clone>::clone ](i: &std::time::Instant) -> (r:
    std::time::Instant)
    ensures
        r == *i,
;

/// A creation or update timestamp: the monotonic instant it was taken.
#[derive(Debug)]
pub struct DefaultInstant {
    pub instant: std::time::Instant,
}

impl Default for DefaultInstant {
    /// A reading of the clock at the moment of the call.
    fn default() -> (r: Self) {
        DefaultInstant { instant: std::time::Instant::now() }
    }
}

impl Clone for DefaultInstant {
    fn clone(&self) -> (r: Self)
        ensures
            r == *self,
    {
        DefaultInstant { instant: self.instant.clone() }
    }
}

} // verus!
