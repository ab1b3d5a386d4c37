use crate::bit_vec::zeros;
use crate::sip::sip13;
use vstd::prelude::*;

verus! {

/// The two base digests of `item`: one under each of the two keys.
pub open spec fn digests(key0: (u64, u64), key1: (u64, u64), item: Seq<u8>) -> (u64, u64) {
    (sip13(key0.0, key0.1, item), sip13(key1.0, key1.1, item))
}

/// The bit probed in round `round` by double hashing: `(h1 + round * h2) mod capacity`,
/// where the sum wraps around at 2^64 before it is reduced.
pub open spec fn bit_index(h1: u64, h2: u64, round: nat, capacity: nat) -> int {
    ((h1 + round * h2) % 0x1_0000_0000_0000_0000) % (capacity as int)
}

/// `bits` with the probes of the first `rounds` rounds set.
pub open spec fn marked(bits: Seq<bool>, h1: u64, h2: u64, rounds: nat) -> Seq<bool> {
    Seq::new(
        bits.len(),
        |j: int| bits[j] || exists|round: nat| round < rounds && bit_index(h1, h2, round, bits.len()) == j,
    )
}

/// Whether the probes of the first `rounds` rounds are all set in `bits`.
pub open spec fn all_marked(bits: Seq<bool>, h1: u64, h2: u64, rounds: nat) -> bool {
    forall|round: nat| round < rounds ==> bits[#[trigger] bit_index(h1, h2, round, bits.len())]
}

/// The mathematical state of a Bloom filter: its bits, its number of hash rounds and its
/// two 128-bit keys.
pub struct Filter {
    pub bits: Seq<bool>,
    pub rounds: nat,
    pub key0: (u64, u64),
    pub key1: (u64, u64),
}

impl Filter {
    /// A filter has at least one byte of bits and at least one hash round.
    pub open spec fn wf(self) -> bool {
        &&& 8 <= self.bits.len()
        &&& 1 <= self.rounds
    }

    /// The filter of the given configuration into which nothing was inserted.
    pub open spec fn empty(capacity: nat, rounds: nat, key0: (u64, u64), key1: (u64, u64)) -> Filter {
        Filter { bits: zeros(capacity), rounds, key0, key1 }
    }

    /// The two base digests of `item` under this filter's keys.
    pub open spec fn digests(self, item: Seq<u8>) -> (u64, u64) {
        digests(self.key0, self.key1, item)
    }

    /// The filter after the item with base digests `h1` and `h2` was inserted.
    pub open spec fn insert_hashed(self, h1: u64, h2: u64) -> Filter {
        Filter { bits: marked(self.bits, h1, h2, self.rounds), ..self }
    }

    /// Whether the item with base digests `h1` and `h2` is possibly present.
    pub open spec fn contains_hashed(self, h1: u64, h2: u64) -> bool {
        all_marked(self.bits, h1, h2, self.rounds)
    }

    /// The filter after `item` was inserted.
    pub open spec fn insert(self, item: Seq<u8>) -> Filter {
        self.insert_hashed(self.digests(item).0, self.digests(item).1)
    }

    /// Whether `item` is possibly present: `false` means that it was never inserted.
    pub open spec fn contains(self, item: Seq<u8>) -> bool {
        self.contains_hashed(self.digests(item).0, self.digests(item).1)
    }

    /// The filter of the same configuration with every bit reset.
    pub open spec fn cleared(self) -> Filter {
        Filter::empty(self.bits.len(), self.rounds, self.key0, self.key1)
    }

    /// The filter after the items of `items` were inserted, first to last.
    pub open spec fn insert_all(self, items: Seq<Seq<u8>>) -> Filter
        decreases items.len(),
    {
        if items.len() == 0 {
            self
        } else {
            self.insert_all(items.drop_last()).insert(items.last())
        }
    }

    /// Whether the two filters have the same capacity, hash rounds and keys.
    pub open spec fn same_config(self, other: Filter) -> bool {
        &&& self.bits.len() == other.bits.len()
        &&& self.rounds == other.rounds
        &&& self.key0 == other.key0
        &&& self.key1 == other.key1
    }
}

} // verus!
