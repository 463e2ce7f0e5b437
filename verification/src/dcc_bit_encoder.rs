use vstd::prelude::*;

use crate::dcc_bit::DccBit;
use crate::dcc_bit_decoder::State;
use crate::dcc_bit_decoder::spec_step_emit;
use crate::dcc_bit_decoder::spec_step_state;
use crate::dcc_encoded_bit::DccEncodedBit;
use crate::polarity::Polarity;

verus! {

/// The reverse path of the decoder: maps a bit value to the transition
/// timings that transmit it.
#[derive(Clone, Copy, Debug)]
pub struct DccBitEncoder {}

/// What encoding a bit produces: both half-intervals equal to the nominal
/// half-duration of that bit value.
pub open spec fn spec_encode_bit(value: bool) -> DccEncodedBit {
    DccEncodedBit { duration: value.constraints_spec().half_nominal }
}

impl DccBitEncoder {
    pub fn encode_bit(&self, value: bool) -> (encoded: DccEncodedBit)
        ensures
            encoded == spec_encode_bit(value),
    {
        DccEncodedBit::new(value.timing_constraints().half_duration())
    }
}

impl Default for DccBitEncoder {
    fn default() -> (encoder: Self) {
        Self {}
    }
}

/// Round trip: feeding the two half-durations of an encoded bit into a
/// decoder that holds no pending half-bit, as two opposite-polarity
/// transitions, emits nothing on the first transition, exactly the encoded
/// bit on the second, and leaves the decoder again with no pending half-bit.
pub proof fn lemma_encode_decode_round_trip(
    value: bool,
    first_polarity: Polarity,
    second_polarity: Polarity,
)
    requires
        first_polarity != second_polarity,
    ensures
        spec_step_emit(State::Pending, first_polarity, spec_encode_bit(value).duration) is None,
        spec_step_emit(
            spec_step_state(State::Pending, first_polarity, spec_encode_bit(value).duration),
            second_polarity,
            spec_encode_bit(value).duration,
        ) == Some(value),
        spec_step_state(
            spec_step_state(State::Pending, first_polarity, spec_encode_bit(value).duration),
            second_polarity,
            spec_encode_bit(value).duration,
        ) == State::Pending,
{
}

} // verus!
