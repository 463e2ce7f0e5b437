use dcc_bit_codec::BitReading;
use dcc_bit_codec::CircularBitBuffer;
use dcc_bit_codec::DccBit;
use dcc_bit_codec::DccBitDecoder;
use dcc_bit_codec::DccBitEncoder;
use dcc_bit_codec::DccBitTimingConstraints;
use dcc_bit_codec::DurationRange;
use dcc_bit_codec::HalfBitReading;
use dcc_bit_codec::Polarity;
use dcc_bit_codec::RangeInclusiveExt;

#[test]
fn classification_follows_the_half_duration_ranges() {
    assert_eq!(bool::from_half_duration(51), None);
    assert_eq!(bool::from_half_duration(52), Some(true));
    assert_eq!(bool::from_half_duration(58), Some(true));
    assert_eq!(bool::from_half_duration(64), Some(true));
    assert_eq!(bool::from_half_duration(65), None);
    assert_eq!(bool::from_half_duration(89), None);
    assert_eq!(bool::from_half_duration(90), Some(false));
    assert_eq!(bool::from_half_duration(100), Some(false));
    assert_eq!(bool::from_half_duration(10000), Some(false));
    assert_eq!(bool::from_half_duration(10001), None);
    assert_eq!(bool::from_half_duration(0), None);
}

#[test]
fn one_bit_constraints_reject_a_stretched_half() {
    let one_constraints = DccBitTimingConstraints::for_one_bit();
    assert!(!one_constraints.is_valid_half_duration(10000));
    assert!(one_constraints.is_valid_half_duration(58));
}

#[test]
fn nominal_half_durations() {
    assert_eq!(DccBitTimingConstraints::for_one_bit().half_duration(), 58);
    assert_eq!(DccBitTimingConstraints::for_zero_bit().half_duration(), 100);
}

#[test]
fn zero_bit_total_duration_bound_rejects_two_stretched_halves() {
    let zero_constraints = DccBitTimingConstraints::for_zero_bit();
    assert!(zero_constraints.are_valid_durations(100, 100));
    assert!(zero_constraints.are_valid_durations(100, 10000));
    assert!(!zero_constraints.are_valid_durations(10000, 10000));
    assert!(!zero_constraints.are_valid_durations(8000, 8000));
    assert!(zero_constraints.are_valid_durations(2000, 10000));
    assert!(!zero_constraints.are_valid_durations(2001, 10000));
}

#[test]
fn one_bit_durations_have_no_total_bound() {
    let one_constraints = DccBitTimingConstraints::for_one_bit();
    assert!(one_constraints.are_valid_durations(52, 64));
    assert!(!one_constraints.are_valid_durations(58, 100));
    assert!(!one_constraints.are_valid_durations(51, 58));
}

#[test]
fn range_contains_is_inclusive_on_both_ends() {
    let range = DurationRange { min_micros: 90, max_micros: 10000 };
    assert!(!range.range_contains(89));
    assert!(range.range_contains(90));
    assert!(range.range_contains(10000));
    assert!(!range.range_contains(10001));
}

#[test]
fn encoder_produces_the_nominal_symmetric_halves() {
    let encoder = DccBitEncoder::default();
    let encoded_one = encoder.encode_bit(true);
    assert_eq!(encoded_one.first_half_duration(), 58);
    assert_eq!(encoded_one.second_half_duration(), 58);
    let encoded_zero = encoder.encode_bit(false);
    assert_eq!(encoded_zero.first_half_duration(), 100);
    assert_eq!(encoded_zero.second_half_duration(), 100);
}

#[test]
fn decoder_recovers_after_an_overlong_total_duration() {
    let mut decoder = DccBitDecoder::default();

    assert_eq!(decoder.on_polarity_change(Polarity::Positive, 8000), None);
    assert_eq!(decoder.on_polarity_change(Polarity::Negative, 8000), None);

    assert_eq!(decoder.on_polarity_change(Polarity::Positive, 58), None);
    assert_eq!(decoder.on_polarity_change(Polarity::Negative, 58), Some(true));
}

#[test]
fn decoder_discards_pending_state_on_an_unclassifiable_duration() {
    let mut decoder = DccBitDecoder::default();

    assert_eq!(decoder.on_polarity_change(Polarity::Positive, 58), None);
    // a glitch shorter than any half-bit clears the pending half
    assert_eq!(decoder.on_polarity_change(Polarity::Negative, 5), None);
    assert_eq!(decoder.on_polarity_change(Polarity::Positive, 58), None);
    assert_eq!(decoder.on_polarity_change(Polarity::Negative, 58), Some(true));
}

#[test]
fn repeated_polarity_does_not_pair() {
    let mut decoder = DccBitDecoder::default();

    assert_eq!(decoder.on_polarity_change(Polarity::Positive, 58), None);
    assert_eq!(decoder.on_polarity_change(Polarity::Positive, 58), None);
    assert_eq!(decoder.on_polarity_change(Polarity::Negative, 58), Some(true));
}

#[test]
fn half_bit_reading_classifies_and_keeps_the_transition() {
    let reading = HalfBitReading::from_polarity_change(Polarity::Positive, 100).unwrap();
    assert_eq!(reading.to_polarity, Polarity::Positive);
    assert_eq!(reading.time_since_previous_change, 100);
    assert_eq!(reading.possible_bit, false);
    assert_eq!(reading.timing_constraints().half_duration(), 100);

    assert!(HalfBitReading::from_polarity_change(Polarity::Negative, 70).is_none());
}

#[test]
fn from_two_halves_validates_the_pair() {
    let first = HalfBitReading::from_polarity_change(Polarity::Positive, 58).unwrap();
    let second = HalfBitReading::from_polarity_change(Polarity::Negative, 58).unwrap();
    let reading = BitReading::from_two_halves(first, second).unwrap();
    assert_eq!(reading.bit(), true);

    // repeated polarity
    assert!(BitReading::from_two_halves(first, first).is_none());

    // disagreeing candidate bits
    let zero_half = HalfBitReading::from_polarity_change(Polarity::Negative, 100).unwrap();
    assert!(BitReading::from_two_halves(first, zero_half).is_none());

    // total duration out of bounds for a zero bit
    let long_first = HalfBitReading::from_polarity_change(Polarity::Positive, 8000).unwrap();
    let long_second = HalfBitReading::from_polarity_change(Polarity::Negative, 8000).unwrap();
    assert!(BitReading::from_two_halves(long_first, long_second).is_none());
}

#[test]
fn buffer_keeps_first_in_first_out_order_across_wraparound() {
    let mut buffer = CircularBitBuffer::new(1);
    for i in 0..20 {
        buffer.push_bit(i % 3 == 0);
    }
    for i in 0..20 {
        assert_eq!(buffer.dequeue_bit(), Some(i % 3 == 0));
    }
    // the second round wraps past the end of the storage word
    for i in 0..30 {
        buffer.push_bit(i % 2 == 0);
    }
    for i in 0..30 {
        assert_eq!(buffer.dequeue_bit(), Some(i % 2 == 0));
    }
    assert_eq!(buffer.dequeue_bit(), None);
}

#[test]
fn overflow_evicts_exactly_the_oldest_bit() {
    let mut buffer = CircularBitBuffer::new(1);
    let capacity = buffer.capacity();
    for i in 0..capacity + 1 {
        buffer.push_bit(i % 5 == 0);
    }
    assert_eq!(buffer.len(), capacity);
    // the bit pushed first is gone; the rest follow in order
    for i in 1..capacity + 1 {
        assert_eq!(buffer.dequeue_bit(), Some(i % 5 == 0));
    }
    assert_eq!(buffer.dequeue_bit(), None);
}

#[test]
fn multi_word_buffer_holds_its_full_capacity() {
    let mut buffer = CircularBitBuffer::new(2);
    assert_eq!(buffer.capacity(), 64);
    for i in 0..64 {
        buffer.push_bit(i % 7 == 0);
    }
    for i in 0..64 {
        assert_eq!(buffer.dequeue_bit(), Some(i % 7 == 0));
    }
    assert_eq!(buffer.dequeue_bit(), None);
}
