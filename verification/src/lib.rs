mod buffered_dcc_bit_decoder;
mod circular_bit_buffer;
mod dcc_bit;
mod dcc_bit_decoder;
mod dcc_bit_encoder;
mod dcc_bit_timing_constraints;
mod dcc_encoded_bit;
mod polarity;
mod range_inclusive_ext;

pub use crate::buffered_dcc_bit_decoder::BufferedDccBitDecoder;
pub use crate::circular_bit_buffer::CircularBitBuffer;
pub use crate::dcc_bit::DccBit;
pub use crate::dcc_bit::lemma_half_duration_ranges_disjoint;
pub use crate::dcc_bit_decoder::BitReading;
pub use crate::dcc_bit_decoder::DccBitDecoder;
pub use crate::dcc_bit_decoder::HalfBitReading;
pub use crate::dcc_bit_decoder::State;
pub use crate::dcc_bit_decoder::lemma_resync_after_lone_half_bit;
pub use crate::dcc_bit_decoder::spec_half_bit_reading;
pub use crate::dcc_bit_decoder::spec_halves_pair;
pub use crate::dcc_bit_decoder::spec_step_emit;
pub use crate::dcc_bit_decoder::spec_step_state;
pub use crate::dcc_bit_encoder::DccBitEncoder;
pub use crate::dcc_bit_encoder::lemma_encode_decode_round_trip;
pub use crate::dcc_bit_encoder::spec_encode_bit;
pub use crate::dcc_bit_timing_constraints::DccBitTimingConstraints;
pub use crate::dcc_bit_timing_constraints::DurationRange;
pub use crate::dcc_encoded_bit::DccEncodedBit;
pub use crate::polarity::Polarity;
pub use crate::range_inclusive_ext::RangeInclusiveExt;
