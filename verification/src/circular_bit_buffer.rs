use vstd::prelude::*;

use vstd::arithmetic::div_mod::lemma_add_mod_noop;
use vstd::arithmetic::div_mod::lemma_fundamental_div_mod;
use vstd::arithmetic::div_mod::lemma_mod_add_multiples_vanish;
use vstd::arithmetic::div_mod::lemma_mod_division_less_than_divisor;
use vstd::arithmetic::div_mod::lemma_small_mod;
use vstd::pervasive::VecAdditionalExecFns;

verus! {

/// Bits a single storage word packs.
const WORD_BITS: usize = 32;

/// Whether bit `bit` of `word` is set, read through a shifted mask as the
/// storage code does.
spec fn word_bit(word: u32, bit: u32) -> bool {
    word & (1u32 << bit) != 0u32
}

/// `word` with bit `bit` set to `value` and every other bit unchanged,
/// written through a shifted mask as the storage code does.
spec fn word_with_bit(word: u32, bit: u32, value: bool) -> u32 {
    if value {
        word | (1u32 << bit)
    } else {
        word & !(1u32 << bit)
    }
}

/// Writing one bit of a word touches that bit alone.
proof fn lemma_word_with_bit(word: u32, bit: u32, value: bool, other: u32)
    requires
        bit < 32,
        other < 32,
    ensures
        word_bit(word_with_bit(word, bit, value), other) == if other == bit {
            value
        } else {
            word_bit(word, other)
        },
{
    if value {
        assert(((word | (1u32 << bit)) & (1u32 << other) != 0u32) == if other == bit {
            true
        } else {
            word & (1u32 << other) != 0u32
        }) by (bit_vector)
            requires
                bit < 32,
                other < 32,
        ;
    } else {
        assert(((word & !(1u32 << bit)) & (1u32 << other) != 0u32) == if other == bit {
            false
        } else {
            word & (1u32 << other) != 0u32
        }) by (bit_vector)
            requires
                bit < 32,
                other < 32,
        ;
    }
}

/// Relies on bit_field::BitField::get_bit for u32, which masks the word with
/// `1 << bit` and panics only when `bit` is 32 or more.
#[verifier::external_body]
fn word_get_bit(word: u32, bit: usize) -> (value: bool)
    requires
        bit < 32,
    ensures
        value == word_bit(word, bit as u32),
{
    bit_field::BitField::get_bit(&word, bit)
}

/// Relies on bit_field::BitField::set_bit for u32, which ors the word with
/// `1 << bit` or ands it with the mask's complement, and panics only when
/// `bit` is 32 or more.
#[verifier::external_body]
fn word_set_bit(word: u32, bit: usize, value: bool) -> (result: u32)
    requires
        bit < 32,
    ensures
        result == word_with_bit(word, bit as u32, value),
{
    let mut updated = word;
    bit_field::BitField::set_bit(&mut updated, bit, value);
    updated
}

/// For offsets below the modulus, adding to a base below the modulus wraps
/// around at most once.
proof fn lemma_wrap_once(base: int, offset: int, modulus: int)
    requires
        0 <= base < modulus,
        0 <= offset < modulus,
    ensures
        (base + offset) % modulus == if base + offset < modulus {
            base + offset
        } else {
            base + offset - modulus
        },
{
    if base + offset < modulus {
        lemma_small_mod((base + offset) as nat, modulus as nat);
    } else {
        lemma_mod_add_multiples_vanish(base + offset - modulus, modulus);
        lemma_small_mod((base + offset - modulus) as nat, modulus as nat);
    }
}

/// Distinct offsets from one base give distinct wrapped positions.
proof fn lemma_distinct_positions(base: int, first: int, second: int, modulus: int)
    requires
        0 <= base < modulus,
        0 <= first < modulus,
        0 <= second < modulus,
        first != second,
    ensures
        (base + first) % modulus != (base + second) % modulus,
{
    lemma_wrap_once(base, first, modulus);
    lemma_wrap_once(base, second, modulus);
}

/// A position below the capacity lies in a word below the word count, at a
/// bit offset below the word width.
proof fn lemma_position_split(position: int, words: int)
    requires
        0 <= position < 32 * words,
    ensures
        0 <= position / 32 < words,
        0 <= position % 32 < 32,
        position == 32 * (position / 32) + position % 32,
{
    lemma_fundamental_div_mod(position, 32);
    lemma_mod_division_less_than_divisor(position, 32);
}

/// A fixed-capacity first-in-first-out queue of bits, packed into 32-bit
/// storage words. `index` is the slot of the oldest queued bit and `length`
/// the number of queued bits; a push beyond the capacity evicts the oldest
/// bit instead of failing.
#[derive(Clone, Debug)]
pub struct CircularBitBuffer {
    buffer: Vec<u32>,
    index: usize,
    length: usize,
}

impl View for CircularBitBuffer {
    type V = Seq<bool>;

    /// The queued bits, oldest first.
    closed spec fn view(&self) -> Seq<bool> {
        Seq::new(
            self.length as nat,
            |offset: int| self.bit_at((self.index + offset) % self.spec_capacity()),
        )
    }
}

impl CircularBitBuffer {
    /// How many bits the buffer can hold at once.
    pub closed spec fn spec_capacity(self) -> int {
        self.buffer@.len() as int * 32
    }

    /// The buffer's storage holds at least one word, few enough words that
    /// index arithmetic cannot overflow, and indices within bounds.
    pub closed spec fn wf(self) -> bool {
        &&& 1 <= self.buffer@.len()
        &&& self.buffer@.len() <= usize::MAX as int / 64
        &&& self.index < self.spec_capacity()
        &&& self.length <= self.spec_capacity()
    }

    /// The bit stored at slot `position`.
    closed spec fn bit_at(self, position: int) -> bool {
        word_bit(self.buffer@[position / 32], (position % 32) as u32)
    }

    /// A well-formed buffer never holds more bits than its capacity.
    pub proof fn lemma_len_within_capacity(self)
        requires
            self.wf(),
        ensures
            self@.len() <= self.spec_capacity(),
    {
    }

    /// An empty buffer over `words` zeroed storage words.
    pub fn new(words: usize) -> (buffer: Self)
        requires
            1 <= words <= usize::MAX / 64,
        ensures
            buffer.wf(),
            buffer@ == Seq::<bool>::empty(),
            buffer.spec_capacity() == words * 32,
    {
        let mut storage: Vec<u32> = Vec::new();
        while storage.len() < words
            invariant
                storage@.len() <= words,
            decreases words - storage@.len(),
        {
            storage.push(0u32);
        }
        let buffer = CircularBitBuffer { buffer: storage, index: 0, length: 0 };
        proof {
            assert(buffer@ =~= Seq::<bool>::empty());
        }
        buffer
    }

    pub fn capacity(&self) -> (capacity: usize)
        requires
            self.wf(),
        ensures
            capacity == self.spec_capacity(),
    {
        self.buffer.len() * WORD_BITS
    }

    /// How many bits are queued.
    pub fn len(&self) -> (length: usize)
        requires
            self.wf(),
        ensures
            length == self@.len(),
    {
        self.length
    }

    fn wrap_index(&self, index: usize) -> (wrapped: usize)
        requires
            self.wf(),
        ensures
            wrapped == index as int % self.spec_capacity(),
    {
        index % self.capacity()
    }

    fn increment_index(&mut self)
        requires
            old(self).wf(),
        ensures
            final(self).buffer == old(self).buffer,
            final(self).length == old(self).length,
            final(self).index == (old(self).index + 1) % old(self).spec_capacity(),
            final(self).wf(),
    {
        proof {
            lemma_mod_division_less_than_divisor(old(self).index + 1, old(self).spec_capacity());
        }
        self.index = self.wrap_index(self.index + 1);
    }

    /// Remove and return the oldest queued bit, or `None` when the buffer is
    /// empty.
    pub fn dequeue_bit(&mut self) -> (bit: Option<bool>)
        requires
            old(self).wf(),
        ensures
            final(self).wf(),
            final(self).spec_capacity() == old(self).spec_capacity(),
            old(self)@.len() == 0 ==> bit is None && *final(self) == *old(self),
            old(self)@.len() > 0 ==> bit == Some(old(self)@[0]) && final(self)@ == old(
                self,
            )@.drop_first(),
    {
        if self.length == 0 {
            return None;
        }
        proof {
            lemma_position_split(self.index as int, self.buffer@.len() as int);
            lemma_small_mod(self.index as nat, self.spec_capacity() as nat);
        }
        let word_index = self.index / WORD_BITS;
        let bit_index = self.index % WORD_BITS;
        let bit = word_get_bit(self.buffer[word_index], bit_index);
        let ghost previous = *self;
        self.increment_index();
        self.length = self.length - 1;
        proof {
            assert forall|offset: int| 0 <= offset < self@.len() implies self@[offset]
                == previous@[offset + 1] by {
                let capacity = previous.spec_capacity();
                lemma_add_mod_noop(previous.index + 1, offset, capacity);
                lemma_small_mod(offset as nat, capacity as nat);
            }
            assert(self@ =~= previous@.drop_first());
        }
        Some(bit)
    }

    /// Append `value` as the newest queued bit. When the buffer is full, the
    /// oldest bit is evicted first: overflow loses data but never stalls the
    /// producer.
    pub fn push_bit(&mut self, value: bool)
        requires
            old(self).wf(),
        ensures
            final(self).wf(),
            final(self).spec_capacity() == old(self).spec_capacity(),
            old(self)@.len() < old(self).spec_capacity() ==> final(self)@ == old(self)@.push(value),
            old(self)@.len() == old(self).spec_capacity() ==> final(self)@ == old(
                self,
            )@.drop_first().push(value),
    {
        if self.len() == self.capacity() {
            // the consumer has fallen behind; the oldest unread bit is lost
            let _dropped_bit = self.dequeue_bit();
        }
        let ghost mid = *self;
        let position = self.wrap_index(self.index + self.length);
        proof {
            lemma_mod_division_less_than_divisor(
                mid.index + mid.length,
                mid.spec_capacity(),
            );
            lemma_position_split(position as int, mid.buffer@.len() as int);
        }
        let word_index = position / WORD_BITS;
        let bit_index = position % WORD_BITS;
        let updated_word = word_set_bit(self.buffer[word_index], bit_index, value);
        self.buffer.set(word_index, updated_word);
        self.length = self.length + 1;
        proof {
            let capacity = mid.spec_capacity();
            assert forall|offset: int| 0 <= offset < mid@.len() implies self@[offset]
                == mid@[offset] by {
                let slot = (mid.index + offset) % capacity;
                lemma_mod_division_less_than_divisor(mid.index + offset, capacity);
                lemma_small_mod(offset as nat, capacity as nat);
                lemma_distinct_positions(mid.index as int, offset, mid.length as int, capacity);
                lemma_position_split(slot, mid.buffer@.len() as int);
                if slot / 32 == position / 32 {
                    lemma_word_with_bit(
                        mid.buffer@[slot / 32],
                        bit_index as u32,
                        value,
                        (slot % 32) as u32,
                    );
                }
            }
            assert(self@[mid@.len() as int] == value) by {
                lemma_word_with_bit(
                    mid.buffer@[position as int / 32],
                    bit_index as u32,
                    value,
                    bit_index as u32,
                );
            }
            assert(self@ =~= mid@.push(value));
        }
    }
}

impl Default for CircularBitBuffer {
    /// An empty buffer over a single zeroed storage word.
    fn default() -> (buffer: Self)
        ensures
            buffer.wf(),
            buffer@ == Seq::<bool>::empty(),
            buffer.spec_capacity() == 32,
    {
        CircularBitBuffer::new(1)
    }
}

} // verus!
