use vstd::prelude::*;

use crate::dcc_bit::DccBit;
use crate::dcc_bit_timing_constraints::DccBitTimingConstraints;
use crate::polarity::Polarity;

verus! {

/// One classified half-bit: the polarity the line settled on, how long the
/// previous polarity lasted, and the bit value that duration is a candidate
/// for. It lives only while the decoder awaits its pairing partner.
#[derive(Clone, Copy, Debug, PartialEq, Eq, Structural)]
pub struct HalfBitReading {
    pub to_polarity: Polarity,
    pub time_since_previous_change: u64,
    pub possible_bit: bool,
}

/// The entire mutable state of the decoder proper: either no half-bit has
/// accumulated, or exactly one awaits its partner.
#[derive(Clone, Copy, Debug, PartialEq, Eq, Structural)]
pub enum State {
    Pending,
    AfterFirstChange(HalfBitReading),
}

/// A validated pair of half-bit readings that decodes to one bit.
#[derive(Clone, Copy, Debug, PartialEq, Eq, Structural)]
pub struct BitReading {
    pub first_half: HalfBitReading,
    pub second_half: HalfBitReading,
}

/// The half-bit reading a transition yields: `None` when the elapsed
/// duration fits neither bit value.
pub open spec fn spec_half_bit_reading(to_polarity: Polarity, elapsed: u64) -> Option<
    HalfBitReading,
> {
    match <bool as DccBit>::classify_spec(elapsed) {
        Some(possible_bit) => Some(
            HalfBitReading { to_polarity, time_since_previous_change: elapsed, possible_bit },
        ),
        None => None,
    }
}

/// Whether two consecutive half-bit readings pair into a valid bit: their
/// polarities alternate, their candidate bit values agree, and the two
/// durations satisfy the timing constraints of that shared bit value.
pub open spec fn spec_halves_pair(first_half: HalfBitReading, second_half: HalfBitReading) -> bool {
    &&& first_half.to_polarity != second_half.to_polarity
    &&& first_half.possible_bit == second_half.possible_bit
    &&& first_half.possible_bit.constraints_spec().durations_valid(
        first_half.time_since_previous_change,
        second_half.time_since_previous_change,
    )
}

/// The decoder state after one transition is consumed in state `state`:
/// an unclassifiable duration clears the state; a first half-bit is stored;
/// a successful pairing clears the state; a failed pairing resynchronizes by
/// keeping the new half-bit as the pending one.
pub open spec fn spec_step_state(state: State, to_polarity: Polarity, elapsed: u64) -> State {
    match spec_half_bit_reading(to_polarity, elapsed) {
        None => State::Pending,
        Some(reading) => match state {
            State::Pending => State::AfterFirstChange(reading),
            State::AfterFirstChange(first_half) => if spec_halves_pair(first_half, reading) {
                State::Pending
            } else {
                State::AfterFirstChange(reading)
            },
        },
    }
}

/// The bit one transition emits in state `state`: the shared candidate value
/// when the pending half-bit and the new one pair, and nothing otherwise.
pub open spec fn spec_step_emit(state: State, to_polarity: Polarity, elapsed: u64) -> Option<
    bool,
> {
    match spec_half_bit_reading(to_polarity, elapsed) {
        None => None,
        Some(reading) => match state {
            State::Pending => None,
            State::AfterFirstChange(first_half) => if spec_halves_pair(first_half, reading) {
                Some(first_half.possible_bit)
            } else {
                None
            },
        },
    }
}

/// Mid-stream resynchronization: when a fresh decoder first sees one lone
/// classifiable half-bit and then a full valid one-bit — two half-intervals
/// within the one-bit range, on alternating polarities — exactly one bit
/// comes out across those two transitions, and it is the one-bit. The lone
/// half either pairs with the first half of the bit or is discarded in its
/// favour; it is never decoded on its own and never costs more than one
/// transition of delay.
pub proof fn lemma_resync_after_lone_half_bit(
    lone_polarity: Polarity,
    lone_duration: u64,
    first_polarity: Polarity,
    first_duration: u64,
    second_polarity: Polarity,
    second_duration: u64,
)
    requires
        <bool as DccBit>::classify_spec(lone_duration) is Some,
        first_polarity != second_polarity,
        DccBitTimingConstraints::spec_for_one_bit().half_duration_valid(first_duration),
        DccBitTimingConstraints::spec_for_one_bit().half_duration_valid(second_duration),
    ensures
        ({
            let lone_state = spec_step_state(State::Pending, lone_polarity, lone_duration);
            let first_emit = spec_step_emit(lone_state, first_polarity, first_duration);
            let paired_state = spec_step_state(lone_state, first_polarity, first_duration);
            let second_emit = spec_step_emit(paired_state, second_polarity, second_duration);
            &&& spec_step_emit(State::Pending, lone_polarity, lone_duration) is None
            &&& (first_emit is Some <==> second_emit is None)
            &&& (first_emit is Some ==> first_emit == Some(true))
            &&& (second_emit is Some ==> second_emit == Some(true))
        }),
{
}

/// Recovers bits from a stream of polarity transitions, one transition at a
/// time, pairing consecutive half-bits and resynchronizing when a pair does
/// not fit together.
#[derive(Clone, Copy, Debug)]
pub struct DccBitDecoder {
    pub state: State,
}

impl DccBitDecoder {
    /// Consume one observed transition: the line settled on `to_polarity`
    /// after holding its previous polarity for `time_since_previous_change`
    /// microseconds. Emits at most one decoded bit.
    pub fn on_polarity_change(
        &mut self,
        to_polarity: Polarity,
        time_since_previous_change: u64,
    ) -> (bit: Option<bool>)
        ensures
            final(self).state == spec_step_state(
                old(self).state,
                to_polarity,
                time_since_previous_change,
            ),
            bit == spec_step_emit(old(self).state, to_polarity, time_since_previous_change),
    {
        let half_bit_reading = HalfBitReading::from_polarity_change(
            to_polarity,
            time_since_previous_change,
        );
        if let Some(half_bit_reading) = half_bit_reading {
            match self.state {
                State::Pending => {
                    self.state = State::AfterFirstChange(half_bit_reading);
                    None
                },
                State::AfterFirstChange(first_half_bit_reading) => {
                    let second_half_bit_reading = half_bit_reading;
                    if let Some(bit_reading) = BitReading::from_two_halves(
                        first_half_bit_reading,
                        second_half_bit_reading,
                    ) {
                        self.state = State::Pending;
                        Some(bit_reading.bit())
                    } else {
                        // the halves do not correlate, so the first half is
                        // disregarded and the second becomes the new pending
                        // half: the decoder may have started mid-bit
                        self.state = State::AfterFirstChange(second_half_bit_reading);
                        None
                    }
                },
            }
        } else {
            // a duration too quick or too slow to belong to either bit value
            // also means any pending half-bit was not the start of a bit
            self.state = State::Pending;
            None
        }
    }
}

impl Default for DccBitDecoder {
    /// A fresh decoder holds no pending half-bit.
    fn default() -> (decoder: Self)
        ensures
            decoder.state == State::Pending,
    {
        Self { state: State::Pending }
    }
}

impl Default for State {
    fn default() -> (state: Self)
        ensures
            state == State::Pending,
    {
        State::Pending
    }
}

impl BitReading {
    /// Pair two consecutive half-bit readings into a validated bit, or
    /// report that they do not fit together.
    pub fn from_two_halves(first_half: HalfBitReading, second_half: HalfBitReading) -> (reading:
        Option<BitReading>)
        ensures
            reading matches Some(r) ==> r == (BitReading { first_half, second_half }),
            reading is Some <==> spec_halves_pair(first_half, second_half),
    {
        if first_half.to_polarity != second_half.to_polarity && first_half.possible_bit
            == second_half.possible_bit && first_half.timing_constraints().are_valid_durations(
            first_half.time_since_previous_change,
            second_half.time_since_previous_change,
        ) {
            Some(BitReading { first_half, second_half })
        } else {
            None
        }
    }

    /// The decoded value: the candidate bit the two halves agree on.
    pub fn bit(&self) -> (bit: bool)
        ensures
            bit == self.first_half.possible_bit,
    {
        self.first_half.possible_bit
    }
}

impl HalfBitReading {
    /// Classify one transition into a half-bit reading, or discard it when
    /// its duration fits neither bit value.
    pub fn from_polarity_change(to_polarity: Polarity, time_since_previous_change: u64) -> (reading:
        Option<HalfBitReading>)
        ensures
            reading == spec_half_bit_reading(to_polarity, time_since_previous_change),
    {
        match bool::from_half_duration(time_since_previous_change) {
            Some(possible_bit) => Some(
                HalfBitReading { to_polarity, time_since_previous_change, possible_bit },
            ),
            None => None,
        }
    }

    /// The timing constraints of this half-bit's candidate value.
    pub fn timing_constraints(&self) -> (constraints: DccBitTimingConstraints)
        ensures
            constraints == self.possible_bit.constraints_spec(),
    {
        self.possible_bit.timing_constraints()
    }
}

} // verus!
