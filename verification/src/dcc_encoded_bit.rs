use vstd::prelude::*;

verus! {

/// The transition timings that transmit one bit: a transition, `duration`
/// microseconds of one polarity, another transition, and `duration`
/// microseconds of the other. Both halves of an encoded bit are equal.
#[derive(Clone, Copy, Debug, PartialEq, Eq, Structural)]
pub struct DccEncodedBit {
    pub duration: u64,
}

impl DccEncodedBit {
    pub(crate) fn new(duration: u64) -> (encoded: Self)
        ensures
            encoded.duration == duration,
    {
        Self { duration }
    }

    /// How long the line holds its new polarity after the first transition.
    pub fn first_half_duration(&self) -> (duration: u64)
        ensures
            duration == self.duration,
    {
        self.duration
    }

    /// How long the line holds its new polarity after the second transition.
    pub fn second_half_duration(&self) -> (duration: u64)
        ensures
            duration == self.duration,
    {
        self.duration
    }
}

} // verus!
