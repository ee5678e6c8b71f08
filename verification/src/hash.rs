//! Content hashing of submitted source text.
//!
//! The identifier under which artifacts are stored is a 64-bit FNV-1a hash of
//! the source bytes, rendered in decimal. The hash is a pure function of the
//! bytes alone — it depends on no process state, time or address — so the same
//! source always maps to the same identifier, in this run and in any other.

use vstd::prelude::*;
use vstd::string::StringSliceAdditionalSpecFns;

verus! {

/// The FNV-1a offset basis: the hash of the empty byte sequence.
pub const FNV_OFFSET_BASIS: u64 = 0xcbf2_9ce4_8422_2325;

/// The FNV-1a 64-bit prime.
pub const FNV_PRIME: u64 = 0x100_0000_01b3;

/// The 64-bit FNV-1a hash of a byte sequence: starting from the offset
/// basis, each byte is folded in by xor followed by a wrapping multiply
/// with the FNV prime.
pub open spec fn fnv64(s: Seq<u8>) -> u64
    decreases s.len(),
{
    if s.len() == 0 {
        FNV_OFFSET_BASIS
    } else {
        (fnv64(s.drop_last()) ^ (s.last() as u64)).wrapping_mul(FNV_PRIME)
    }
}

/// Hash source text to its content identifier.
pub fn hash_source(source: &str) -> (h: u64)
    ensures
        h == fnv64(source.spec_bytes()),
{
    let bytes: &[u8] = source.as_bytes();
    let mut h: u64 = FNV_OFFSET_BASIS;
    let mut i: usize = 0;
    proof {
        assert(bytes@.take(0int) =~= Seq::<u8>::empty());
    }
    while i < bytes.len()
        invariant
            i <= bytes@.len(),
            h == fnv64(bytes@.take(i as int)),
            bytes@ == source.spec_bytes(),
        decreases bytes@.len() - i,
    {
        let b: u8 = bytes[i];
        h = (h ^ (b as u64)).wrapping_mul(FNV_PRIME);
        proof {
            assert(bytes@.take(i + 1).drop_last() =~= bytes@.take(i as int));
            assert(bytes@.take(i + 1).last() == bytes@[i as int]);
        }
        i = i + 1;
    }
    proof {
        assert(bytes@.take(bytes@.len() as int) =~= bytes@);
    }
    h
}

/// Equal byte sequences always hash equal: the hash is deterministic, and
/// since `fnv64` reads nothing but its argument, it is also stable across
/// repeated invocations and across process runs.
pub proof fn lemma_hash_deterministic(s1: Seq<u8>, s2: Seq<u8>)
    requires
        s1 == s2,
    ensures
        fnv64(s1) == fnv64(s2),
{
}

} // verus!
