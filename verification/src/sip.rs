use siphasher::sip::SipHasher13;
use vstd::prelude::*;

verus! {

/// The SipHash-1-3 digest of `bytes` under the 128-bit key made of the words `k0` and `k1`.
pub uninterp spec fn sip13(k0: u64, k1: u64, bytes: Seq<u8>) -> u64;

/// Digests `bytes` with a hasher made by `SipHasher13::new_with_keys(k0, k1)`, through
/// `SipHasher13::hash`.
///
/// Trusted, not proved: the digest depends on the two key words and on the bytes alone, so
/// that it can be called `sip13(k0, k1, bytes)`. Nothing is claimed about its value. The
/// call accepts every key and every slice.
#[verifier::external_body]
pub(crate) fn sip13_digest(k0: u64, k1: u64, bytes: &[u8]) -> (digest: u64)
    ensures
        digest == sip13(k0, k1, bytes@),
{
    SipHasher13::new_with_keys(k0, k1).hash(bytes)
}

} // verus!
