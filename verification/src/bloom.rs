use crate::bit_vec::BitVec;
use crate::filter::{all_marked, bit_index, marked, Filter};
use crate::sip::sip13_digest;
use vstd::arithmetic::div_mod::lemma_add_mod_noop_right;
use vstd::prelude::*;

verus! {

/// A Bloom filter: a probabilistic set that may report an item it never saw, and never
/// misses one it did see.
///
/// An item is the sequence of bytes that stands for it. It is reduced to two SipHash-1-3
/// digests, one under each key, from which double hashing derives one bit per hash round.
/// The size of the buffer and the number of rounds are fixed when the filter is built.
#[derive(Debug)]
pub struct Bloom {
    bits: BitVec,
    hash_fn_number: usize,
    keys: [(u64, u64); 2],
}

impl View for Bloom {
    type V = Filter;

    closed spec fn view(&self) -> Filter {
        Filter {
            bits: self.bits@,
            rounds: self.hash_fn_number as nat,
            key0: self.keys[0],
            key1: self.keys[1],
        }
    }
}

impl Clone for Bloom {
    /// Copies the filter: its bits, its number of hash rounds and its keys.
    fn clone(&self) -> (copy: Self)
        ensures
            copy@ == self@,
    {
        Self { bits: self.bits.clone(), hash_fn_number: self.hash_fn_number, keys: self.keys }
    }
}

impl Bloom {
    /// The filter is sized: at least one byte of bits, whose count fits in a `usize`, and at
    /// least one hash round.
    pub open spec fn wf(&self) -> bool {
        &&& self@.wf()
        &&& self@.bits.len() <= usize::MAX
    }

    /// The sizes with which a filter can be built: at least one byte, a bit count that fits
    /// in a `usize`, and at least one hash round.
    pub open spec fn spec_valid_sizing(bits_size: usize, hash_fn_number: usize) -> bool {
        &&& 1 <= bits_size
        &&& bits_size * 8 <= usize::MAX
        &&& 1 <= hash_fn_number
    }

    /// Tells whether a filter can be built with these sizes.
    #[verifier::when_used_as_spec(spec_valid_sizing)]
    pub fn valid_sizing(bits_size: usize, hash_fn_number: usize) -> (valid: bool)
        ensures
            valid == Self::spec_valid_sizing(bits_size, hash_fn_number),
    {
        1 <= bits_size && bits_size <= usize::MAX / 8 && 1 <= hash_fn_number
    }

    /// Creates an empty filter of `bits_size` bytes that probes `hash_fn_number` bits per
    /// item, with the two given SipHash keys. The sizes have to pass [`Bloom::valid_sizing`].
    pub fn new_with_key(bits_size: usize, hash_fn_number: usize, keys: [(u64, u64); 2]) -> (bloom: Self)
        requires
            Self::valid_sizing(bits_size, hash_fn_number),
        ensures
            bloom.wf(),
            bloom@ == Filter::empty((bits_size * 8) as nat, hash_fn_number as nat, keys[0], keys[1]),
    {
        Self { bits: BitVec::new(bits_size), hash_fn_number, keys }
    }

    /// Creates an empty filter of `bits_size` bytes that probes `hash_fn_number` bits per
    /// item, whose two SipHash keys are formed from four words drawn, in this order, from a
    /// source of randomness. The sizes have to pass [`Bloom::valid_sizing`].
    pub fn new_with_rng(bits_size: usize, hash_fn_number: usize, words: [u64; 4]) -> (bloom: Self)
        requires
            Self::valid_sizing(bits_size, hash_fn_number),
        ensures
            bloom.wf(),
            bloom@ == Filter::empty(
                (bits_size * 8) as nat,
                hash_fn_number as nat,
                (words[0], words[1]),
                (words[2], words[3]),
            ),
    {
        Self::new_with_key(bits_size, hash_fn_number, [(words[0], words[1]), (words[2], words[3])])
    }

    /// Inserts `item`, given as the bytes that stand for it. No bit is ever unset, and a
    /// filter takes any number of items.
    pub fn set(&mut self, item: &[u8])
        requires
            old(self).wf(),
        ensures
            final(self).wf(),
            final(self)@ == old(self)@.insert(item@),
    {
        let digests = self.bloom_hash(item);
        self.set_hashed(digests);
    }

    /// Tells whether `item`, given as the bytes that stand for it, is possibly present.
    /// `false` means that it was never inserted.
    pub fn contain(&self, item: &[u8]) -> (present: bool)
        requires
            self.wf(),
        ensures
            present == self@.contains(item@),
    {
        let digests = self.bloom_hash(item);
        self.contain_hashed(digests)
    }

    /// Inserts the item whose two base digests are `digests`: sets the bit probed in each
    /// hash round.
    pub fn set_hashed(&mut self, digests: (u64, u64))
        requires
            old(self).wf(),
        ensures
            final(self).wf(),
            final(self)@ == old(self)@.insert_hashed(digests.0, digests.1),
    {
        let rounds = self.hash_fn_number;
        for i in 0..rounds
            invariant
                self.wf(),
                rounds == self.hash_fn_number,
                self.hash_fn_number == old(self).hash_fn_number,
                self.keys == old(self).keys,
                self.bits@ == marked(old(self).bits@, digests.0, digests.1, i as nat),
        {
            let index = self.get_index(digests, i as u64);
            self.bits.set(index);
        }
    }

    /// Tells whether the item whose two base digests are `digests` is possibly present:
    /// whether the bit probed in each hash round is set.
    pub fn contain_hashed(&self, digests: (u64, u64)) -> (present: bool)
        requires
            self.wf(),
        ensures
            present == self@.contains_hashed(digests.0, digests.1),
    {
        let rounds = self.hash_fn_number;
        for i in 0..rounds
            invariant
                self.wf(),
                rounds == self.hash_fn_number,
                all_marked(self.bits@, digests.0, digests.1, i as nat),
        {
            let index = self.get_index(digests, i as u64);
            if !self.bits.contain(index) {
                return false;
            }
        }
        true
    }

    /// Computes the two base digests of `item`, one under each key.
    pub fn bloom_hash(&self, item: &[u8]) -> (digests: (u64, u64))
        ensures
            digests == self@.digests(item@),
    {
        let key0 = self.keys[0];
        let key1 = self.keys[1];
        (sip13_digest(key0.0, key0.1, item), sip13_digest(key1.0, key1.1, item))
    }

    /// Computes the bit probed in round `i` by double hashing:
    /// `(h1 + i * h2) mod m`, where `m` is the capacity in bits and the sum wraps at 2^64.
    pub fn get_index(&self, digests: (u64, u64), i: u64) -> (index: usize)
        requires
            self.wf(),
        ensures
            index == bit_index(digests.0, digests.1, i as nat, self@.bits.len()),
            index < self@.bits.len(),
    {
        let (h1, h2) = digests;
        let len = self.bits.capacity_in_bits() as u64;
        let step = i.wrapping_mul(h2);
        let sum = h1.wrapping_add(step);
        proof {
            // The product wraps before it is added; the wrapping of the sum absorbs that.
            lemma_add_mod_noop_right(h1 as int, i * h2, 0x1_0000_0000_0000_0000);
        }
        (sum % len) as usize
    }

    /// Returns the number of bits in the filter, which is at least 8.
    pub fn capacity_in_bits(&self) -> (capacity: usize)
        requires
            self.wf(),
        ensures
            capacity == self@.bits.len(),
            capacity >= 8,
    {
        self.bits.capacity_in_bits()
    }

    /// Resets the filter to its empty state; its sizes and keys stay.
    pub fn clear(&mut self)
        ensures
            old(self).wf() ==> final(self).wf(),
            final(self)@ == old(self)@.cleared(),
    {
        self.bits.clear();
    }
}

} // verus!
