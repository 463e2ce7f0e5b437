use vstd::prelude::*;

use crate::range_inclusive_ext::RangeInclusiveExt;

verus! {

/// Shortest half-interval a zero-bit may take, in microseconds.
pub const ZERO_BIT_HALF_MIN_MICROS: u64 = 90;

/// Longest half-interval a zero-bit may take: a zero-bit tolerates a long,
/// "stretched" half.
pub const ZERO_BIT_HALF_MAX_MICROS: u64 = 10000;

/// Half-interval used when transmitting a zero-bit.
pub const ZERO_BIT_HALF_NOMINAL_MICROS: u64 = 100;

/// Shortest total duration of a zero-bit's two halves.
pub const ZERO_BIT_TOTAL_MIN_MICROS: u64 = 90;

/// Longest total duration of a zero-bit's two halves: this keeps two
/// independently stretched halves from passing as a single zero-bit.
pub const ZERO_BIT_TOTAL_MAX_MICROS: u64 = 12000;

/// Shortest half-interval a one-bit may take: one-bit timing is tight, so
/// that one-bits double as a clock.
pub const ONE_BIT_HALF_MIN_MICROS: u64 = 52;

/// Longest half-interval a one-bit may take.
pub const ONE_BIT_HALF_MAX_MICROS: u64 = 64;

/// Half-interval used when transmitting a one-bit.
pub const ONE_BIT_HALF_NOMINAL_MICROS: u64 = 58;

/// An inclusive range of durations, in microseconds.
#[derive(Clone, Copy, Debug, PartialEq, Eq, Structural)]
pub struct DurationRange {
    pub min_micros: u64,
    pub max_micros: u64,
}

impl RangeInclusiveExt for DurationRange {
    open spec fn start_micros(&self) -> u64 {
        self.min_micros
    }

    open spec fn end_micros(&self) -> u64 {
        self.max_micros
    }

    fn range_contains(&self, value: u64) -> (contained: bool) {
        proof {
            assert(self.start_micros() == self.min_micros);
            assert(self.end_micros() == self.max_micros);
        }
        self.min_micros <= value && value <= self.max_micros
    }
}

/// The valid and nominal durations for one bit value.
///
/// A half-interval of the bit must fall within `half_bounds`; transmission
/// uses `half_nominal` for both halves. When `bounds` is present, the sum of
/// the two half-intervals must fall within it as well.
#[derive(Clone, Copy, Debug)]
pub struct DccBitTimingConstraints {
    pub half_bounds: DurationRange,
    pub half_nominal: u64,
    pub bounds: Option<DurationRange>,
}

impl DccBitTimingConstraints {
    /// The timing constraints of a zero-bit: a wide, asymmetric half-interval
    /// range that admits a stretched half, with a bound on the total.
    pub open spec fn spec_for_zero_bit() -> Self {
        DccBitTimingConstraints {
            half_bounds: DurationRange {
                min_micros: ZERO_BIT_HALF_MIN_MICROS,
                max_micros: ZERO_BIT_HALF_MAX_MICROS,
            },
            half_nominal: ZERO_BIT_HALF_NOMINAL_MICROS,
            bounds: Some(
                DurationRange {
                    min_micros: ZERO_BIT_TOTAL_MIN_MICROS,
                    max_micros: ZERO_BIT_TOTAL_MAX_MICROS,
                },
            ),
        }
    }

    /// The timing constraints of a one-bit: a narrow half-interval range
    /// around the nominal value, with no allowance for stretching.
    pub open spec fn spec_for_one_bit() -> Self {
        DccBitTimingConstraints {
            half_bounds: DurationRange {
                min_micros: ONE_BIT_HALF_MIN_MICROS,
                max_micros: ONE_BIT_HALF_MAX_MICROS,
            },
            half_nominal: ONE_BIT_HALF_NOMINAL_MICROS,
            bounds: None,
        }
    }

    /// Whether `half_duration` is an acceptable half-interval under these
    /// constraints.
    pub open spec fn half_duration_valid(self, half_duration: u64) -> bool {
        self.half_bounds.min_micros <= half_duration <= self.half_bounds.max_micros
    }

    /// Whether two consecutive half-intervals form an acceptable bit under
    /// these constraints: both halves individually valid, and, where a total
    /// range is present, their sum within it.
    pub open spec fn durations_valid(self, first_half_duration: u64, second_half_duration: u64) -> bool {
        &&& self.half_duration_valid(first_half_duration)
        &&& self.half_duration_valid(second_half_duration)
        &&& (self.bounds matches Some(bounds) ==> bounds.min_micros <= first_half_duration
            + second_half_duration <= bounds.max_micros)
    }

    pub fn for_zero_bit() -> (constraints: Self)
        ensures
            constraints == Self::spec_for_zero_bit(),
    {
        Self {
            half_bounds: DurationRange {
                min_micros: ZERO_BIT_HALF_MIN_MICROS,
                max_micros: ZERO_BIT_HALF_MAX_MICROS,
            },
            half_nominal: ZERO_BIT_HALF_NOMINAL_MICROS,
            bounds: Some(
                DurationRange {
                    min_micros: ZERO_BIT_TOTAL_MIN_MICROS,
                    max_micros: ZERO_BIT_TOTAL_MAX_MICROS,
                },
            ),
        }
    }

    pub fn for_one_bit() -> (constraints: Self)
        ensures
            constraints == Self::spec_for_one_bit(),
    {
        Self {
            half_bounds: DurationRange {
                min_micros: ONE_BIT_HALF_MIN_MICROS,
                max_micros: ONE_BIT_HALF_MAX_MICROS,
            },
            half_nominal: ONE_BIT_HALF_NOMINAL_MICROS,
            bounds: None,
        }
    }

    /// The nominal half-interval, used for both halves when transmitting.
    pub fn half_duration(&self) -> (nominal: u64)
        ensures
            nominal == self.half_nominal,
    {
        self.half_nominal
    }

    pub fn is_valid_half_duration(&self, half_duration: u64) -> (valid: bool)
        ensures
            valid == self.half_duration_valid(half_duration),
    {
        self.half_bounds.range_contains(half_duration)
    }

    pub fn are_valid_durations(
        &self,
        first_half_duration: u64,
        second_half_duration: u64,
    ) -> (valid: bool)
        ensures
            valid == self.durations_valid(first_half_duration, second_half_duration),
    {
        if !self.is_valid_half_duration(first_half_duration)
            || !self.is_valid_half_duration(second_half_duration) {
            return false;
        }
        match &self.bounds {
            Some(bounds) => match first_half_duration.checked_add(second_half_duration) {
                Some(total_duration) => bounds.range_contains(total_duration),
                None => false,
            },
            None => true,
        }
    }
}

} // verus!
