//! A Bloom filter over a fixed-size bit buffer.
//!
//! * [`bit_vec`] holds the buffer: bits addressed by offset, eight to a byte.
//! * [`filter`] is the mathematical model: which bits an item probes, and what inserting,
//!   querying and clearing mean.
//! * [`bloom`] is the filter itself, whose contracts are stated over that model.
//! * [`laws`] proves what follows for every filter: no false negatives, idempotent
//!   insertion, and that clearing forgets everything.
//! * [`sip`] is the one place that calls the SipHash implementation.

pub mod bit_vec;
pub mod bloom;
pub mod filter;
pub mod laws;
pub mod sip;

pub use crate::bit_vec::BitVec;
pub use crate::bloom::Bloom;
