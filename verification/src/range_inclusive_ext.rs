use vstd::prelude::*;

verus! {

/// An inclusive interval of microsecond durations.
///
/// The two spec accessors give the endpoints, so that contracts over any
/// implementor can state membership exactly.
pub trait RangeInclusiveExt {
    /// The smallest duration the interval admits.
    spec fn start_micros(&self) -> u64;

    /// The largest duration the interval admits.
    spec fn end_micros(&self) -> u64;

    /// Inclusive membership test: `start_micros() <= value <= end_micros()`.
    fn range_contains(&self, value: u64) -> (contained: bool)
        ensures
            contained == (self.start_micros() <= value && value <= self.end_micros()),
    ;
}

} // verus!
