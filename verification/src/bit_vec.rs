use vstd::prelude::*;

verus! {

/// Number of bits stored in each byte of the buffer.
const BITS_PER_BYTE: usize = 8;

/// Whether bit `shift` (counted from the least significant) of `byte` is set.
pub open spec fn bit_of(byte: u8, shift: usize) -> bool {
    byte & (1u8 << shift) != 0
}

/// The bit sequence of the given length in which no bit is set.
pub open spec fn zeros(len: nat) -> Seq<bool> {
    Seq::new(len, |i: int| false)
}

/// No bit of a zero byte is set.
proof fn lemma_zero_byte(probe: usize)
    requires
        probe < 8,
    ensures
        !bit_of(0u8, probe),
{
    assert(0u8 & (1u8 << probe) == 0) by (bit_vector);
}

/// Or-ing `1 << set` into a byte sets bit `set` and changes no other bit.
proof fn lemma_or_bit(byte: u8, set: usize, probe: usize)
    requires
        set < 8,
        probe < 8,
    ensures
        bit_of(byte | (1u8 << set), probe) == (probe == set || bit_of(byte, probe)),
{
    assert((byte | (1u8 << set)) & (1u8 << probe) != 0 <==> (probe == set || byte & (1u8 << probe)
        != 0)) by (bit_vector)
        requires
            set < 8,
            probe < 8,
    ;
}

/// A fixed-capacity array of bits, stored eight to a byte.
#[derive(Debug)]
pub struct BitVec {
    bits: Vec<u8>,
}

impl View for BitVec {
    type V = Seq<bool>;

    /// The buffer as a sequence of bits: bit `i` lives in byte `i / 8` at shift `i % 8`.
    closed spec fn view(&self) -> Seq<bool> {
        Seq::new(
            (self.bits@.len() * 8) as nat,
            |i: int| bit_of(self.bits@[i / 8], (i % 8) as usize),
        )
    }
}

impl Clone for BitVec {
    /// Copies the buffer bit for bit.
    fn clone(&self) -> (copy: Self)
        ensures
            copy@ == self@,
    {
        let copy = Self { bits: self.bits.clone() };
        assert(copy.bits@ =~= self.bits@);
        copy
    }
}

impl BitVec {
    /// The capacity in bits fits in a `usize`, so that every bit has an offset.
    pub open spec fn wf(&self) -> bool {
        self@.len() <= usize::MAX
    }

    /// Creates a buffer of `bytes` bytes, that is `bytes * 8` bits, all of them zero.
    ///
    /// The number of bits has to fit in a `usize`.
    pub fn new(bytes: usize) -> (buffer: Self)
        requires
            bytes * 8 <= usize::MAX,
        ensures
            buffer.wf(),
            buffer@ == zeros((bytes * 8) as nat),
    {
        let buffer = Self { bits: vec![0u8; bytes] };
        proof {
            assert forall|i: int| 0 <= i < buffer@.len() implies !buffer@[i] by {
                lemma_zero_byte((i % 8) as usize);
            }
            assert(buffer@ =~= zeros((bytes * 8) as nat));
        }
        buffer
    }

    /// Returns the number of bytes in the buffer.
    pub fn len(&self) -> (bytes: usize)
        ensures
            bytes * 8 == self@.len(),
    {
        self.bits.len()
    }

    /// Tells whether the bit at `bit_offset` is set.
    pub fn contain(&self, bit_offset: usize) -> (is_set: bool)
        requires
            bit_offset < self@.len(),
        ensures
            is_set == self@[bit_offset as int],
    {
        let byte_offset = bit_offset / BITS_PER_BYTE;
        let bit_shift = bit_offset % BITS_PER_BYTE;
        (self.bits()[byte_offset] & (1u8 << bit_shift)) != 0
    }

    /// Sets the bit at `bit_offset` and leaves every other bit as it was.
    pub fn set(&mut self, bit_offset: usize)
        requires
            bit_offset < old(self)@.len(),
        ensures
            final(self)@ == old(self)@.update(bit_offset as int, true),
    {
        let byte_offset = bit_offset / BITS_PER_BYTE;
        let bit_shift = bit_offset % BITS_PER_BYTE;
        self.bits_mut()[byte_offset] |= 1u8 << bit_shift;
        proof {
            let byte = old(self).bits@[byte_offset as int];
            assert forall|i: int| 0 <= i < self@.len() implies self@[i] == old(self)@.update(
                bit_offset as int,
                true,
            )[i] by {
                if i / 8 == byte_offset {
                    lemma_or_bit(byte, bit_shift, (i % 8) as usize);
                }
            }
            assert(self@ =~= old(self)@.update(bit_offset as int, true));
        }
    }

    /// The bytes that hold the bits.
    fn bits(&self) -> (bytes: &[u8])
        ensures
            bytes@ == self.bits@,
    {
        self.bits.as_slice()
    }

    /// The bytes that hold the bits, for writing in place.
    fn bits_mut(&mut self) -> (bytes: &mut [u8])
        ensures
            bytes@ == old(self).bits@,
            final(self).bits@ == final(bytes)@,
    {
        self.bits.as_mut_slice()
    }

    /// Returns the number of bits in the buffer.
    pub fn capacity_in_bits(&self) -> (capacity: usize)
        requires
            self.wf(),
        ensures
            capacity == self@.len(),
    {
        self.len() * BITS_PER_BYTE
    }

    /// Resets every bit to zero and keeps the capacity.
    pub fn clear(&mut self)
        ensures
            final(self)@ == zeros(old(self)@.len()),
    {
        let bytes = self.bits.len();
        let mut at: usize = 0;
        while at < bytes
            invariant
                at <= bytes,
                self.bits@.len() == bytes,
                bytes == old(self).bits@.len(),
                forall|j: int| 0 <= j < at ==> self.bits@[j] == 0u8,
            decreases bytes - at,
        {
            self.bits_mut()[at] = 0;
            at += 1;
        }
        proof {
            assert forall|i: int| 0 <= i < self@.len() implies !self@[i] by {
                lemma_zero_byte((i % 8) as usize);
            }
            assert(self@ =~= zeros(old(self)@.len()));
        }
    }
}

} // verus!
