use vstd::prelude::*;

use crate::dcc_bit_timing_constraints::DccBitTimingConstraints;

verus! {

/// A value that can travel over the line as one bit of a DCC-style signal.
///
/// The two spec members pin down, per implementor, which timing constraints
/// a value carries and which bit value a half-interval duration is read as.
pub trait DccBit: Sized {
    /// The timing constraints that govern this bit value.
    spec fn constraints_spec(self) -> DccBitTimingConstraints;

    /// The bit value a lone half-interval of `duration` microseconds is a
    /// candidate for, or `None` when the duration fits no bit value.
    spec fn classify_spec(duration: u64) -> Option<Self>;

    fn timing_constraints(&self) -> (constraints: DccBitTimingConstraints)
        ensures
            constraints == self.constraints_spec(),
    ;

    fn from_half_duration(duration: u64) -> (bit: Option<Self>)
        ensures
            bit == Self::classify_spec(duration),
    ;
}

/// The one-bit and zero-bit half-duration ranges are disjoint, so no
/// duration is a candidate for both bit values and classification does not
/// depend on the order in which the two ranges are tried.
pub proof fn lemma_half_duration_ranges_disjoint(duration: u64)
    ensures
        !(DccBitTimingConstraints::spec_for_one_bit().half_duration_valid(duration)
            && DccBitTimingConstraints::spec_for_zero_bit().half_duration_valid(duration)),
{
}

impl DccBit for bool {
    /// A `true` bit is governed by the one-bit constraints, a `false` bit by
    /// the zero-bit constraints.
    open spec fn constraints_spec(self) -> DccBitTimingConstraints {
        if self {
            DccBitTimingConstraints::spec_for_one_bit()
        } else {
            DccBitTimingConstraints::spec_for_zero_bit()
        }
    }

    /// A half-interval is read as a one-bit candidate when it fits the
    /// narrow one-bit range, else as a zero-bit candidate when it fits the
    /// wide zero-bit range, else as no bit at all. The two ranges are
    /// disjoint, so the order of the tests does not decide any duration.
    open spec fn classify_spec(duration: u64) -> Option<bool> {
        if DccBitTimingConstraints::spec_for_one_bit().half_duration_valid(duration) {
            Some(true)
        } else if DccBitTimingConstraints::spec_for_zero_bit().half_duration_valid(duration) {
            Some(false)
        } else {
            None
        }
    }

    fn timing_constraints(&self) -> (constraints: DccBitTimingConstraints) {
        if *self {
            DccBitTimingConstraints::for_one_bit()
        } else {
            DccBitTimingConstraints::for_zero_bit()
        }
    }

    fn from_half_duration(duration: u64) -> (bit: Option<bool>) {
        if DccBitTimingConstraints::for_one_bit().is_valid_half_duration(duration) {
            Some(true)
        } else if DccBitTimingConstraints::for_zero_bit().is_valid_half_duration(duration) {
            Some(false)
        } else {
            None
        }
    }
}

} // verus!
