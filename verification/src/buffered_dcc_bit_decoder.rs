use vstd::prelude::*;

use crate::circular_bit_buffer::CircularBitBuffer;
use crate::dcc_bit_decoder::DccBitDecoder;
use crate::dcc_bit_decoder::State;
use crate::dcc_bit_decoder::spec_step_emit;
use crate::dcc_bit_decoder::spec_step_state;
use crate::polarity::Polarity;

verus! {

/// The decoder state machine composed with a ring buffer of decoded bits,
/// so that the transition-event producer and the bit consumer need not run
/// at the same rate.
#[derive(Debug)]
pub struct BufferedDccBitDecoder {
    pub inner_decoder: DccBitDecoder,
    pub buffer: CircularBitBuffer,
}

impl BufferedDccBitDecoder {
    /// The composition is usable: its buffer is well formed.
    pub open spec fn wf(self) -> bool {
        self.buffer.wf()
    }

    /// The decoded bits waiting for the consumer, oldest first.
    pub open spec fn buffered_bits(self) -> Seq<bool> {
        self.buffer@
    }

    /// Consume one observed transition; a bit it completes is queued for the
    /// consumer, evicting the oldest queued bit if the buffer is full.
    pub fn on_polarity_change(&mut self, to_polarity: Polarity, time_since_previous_change: u64)
        requires
            old(self).wf(),
        ensures
            final(self).wf(),
            final(self).buffer.spec_capacity() == old(self).buffer.spec_capacity(),
            final(self).inner_decoder.state == spec_step_state(
                old(self).inner_decoder.state,
                to_polarity,
                time_since_previous_change,
            ),
            match spec_step_emit(
                old(self).inner_decoder.state,
                to_polarity,
                time_since_previous_change,
            ) {
                None => final(self).buffered_bits() == old(self).buffered_bits(),
                Some(bit) => if old(self).buffered_bits().len() < old(self).buffer.spec_capacity() {
                    final(self).buffered_bits() == old(self).buffered_bits().push(bit)
                } else {
                    final(self).buffered_bits() == old(self).buffered_bits().drop_first().push(bit)
                },
            },
    {
        proof {
            self.buffer.lemma_len_within_capacity();
        }
        if let Some(bit) = self.inner_decoder.on_polarity_change(
            to_polarity,
            time_since_previous_change,
        ) {
            self.buffer.push_bit(bit);
        }
    }

    /// Hand the consumer the oldest decoded bit not yet consumed, or `None`
    /// when every decoded bit has been consumed.
    pub fn dequeue_bit(&mut self) -> (bit: Option<bool>)
        requires
            old(self).wf(),
        ensures
            final(self).wf(),
            final(self).buffer.spec_capacity() == old(self).buffer.spec_capacity(),
            final(self).inner_decoder == old(self).inner_decoder,
            old(self).buffered_bits().len() == 0 ==> bit is None && *final(self) == *old(self),
            old(self).buffered_bits().len() > 0 ==> bit == Some(old(self).buffered_bits()[0])
                && final(self).buffered_bits() == old(self).buffered_bits().drop_first(),
    {
        self.buffer.dequeue_bit()
    }
}

impl Default for BufferedDccBitDecoder {
    /// A fresh buffered decoder: no pending half-bit and no queued bits.
    fn default() -> (decoder: Self)
        ensures
            decoder.wf(),
            decoder.inner_decoder.state == State::Pending,
            decoder.buffered_bits() == Seq::<bool>::empty(),
            decoder.buffer.spec_capacity() == 32,
    {
        Self { inner_decoder: DccBitDecoder::default(), buffer: CircularBitBuffer::default() }
    }
}

} // verus!
