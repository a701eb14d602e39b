//! Deterministic 64-bit FNV-1a hashing over byte strings.
//!
//! This is the leaf of the resolution engine: the fallback region selector
//! derives a region from the hash of an IP string, so the hash must be a pure
//! function of its input, stable across processes and platforms.

use vstd::prelude::*;

verus! {

/// The FNV-1a 64-bit offset basis.
pub const FNV_OFFSET_BASIS: u64 = 0xcbf29ce484222325;

/// The FNV-1a 64-bit prime.
pub const FNV_PRIME: u64 = 0x100000001b3;

/// One FNV-1a round: fold a byte into the accumulator.
pub open spec fn fnv1a_step(acc: u64, byte: u8) -> u64 {
    vstd::wrapping::u64_specs::wrapping_mul(acc ^ (byte as u64), FNV_PRIME)
}

/// The FNV-1a 64-bit hash of a byte string, defined byte by byte from the
/// offset basis.
pub open spec fn fnv1a_spec(bytes: Seq<u8>) -> u64
    decreases bytes.len(),
{
    if bytes.len() == 0 {
        FNV_OFFSET_BASIS
    } else {
        fnv1a_step(fnv1a_spec(bytes.drop_last()), bytes.last())
    }
}

/// Computes the FNV-1a 64-bit hash of `bytes`.
///
/// The result is exactly `fnv1a_spec(bytes@)`, a function of the input alone:
/// repeated calls on equal byte strings return equal hashes.
pub fn fnv1a64(bytes: &[u8]) -> (hash: u64)
    ensures
        hash == fnv1a_spec(bytes@),
{
    let mut hash: u64 = FNV_OFFSET_BASIS;
    let mut i: usize = 0;
    while i < bytes.len()
        invariant
            i <= bytes@.len(),
            hash == fnv1a_spec(bytes@.take(i as int)),
        decreases bytes@.len() - i,
    {
        proof {
            assert(bytes@.take(i + 1).drop_last() =~= bytes@.take(i as int));
            assert(bytes@.take(i + 1).last() == bytes@[i as int]);
        }
        hash = (hash ^ (bytes[i] as u64)).wrapping_mul(FNV_PRIME);
        i = i + 1;
    }
    proof {
        assert(bytes@.take(bytes@.len() as int) =~= bytes@);
    }
    hash
}

/// The hash is deterministic: equal byte strings always hash to equal values.
/// Together with the postcondition of `fnv1a64`, any two calls on identical
/// input return identical output.
pub proof fn lemma_fnv1a_deterministic(b1: Seq<u8>, b2: Seq<u8>)
    requires
        b1 == b2,
    ensures
        fnv1a_spec(b1) == fnv1a_spec(b2),
{
}

} // verus!
