//! The two hash-compatibility constants.
//!
//! The empty set's hash must be bit-identical to the host's native hash of an
//! empty finite immutable set, so that the singleton can stand in for that
//! value inside hashed containers. The constant below is that documented
//! value, fixed by the host's hash algorithm and independent of the machine.
//! The universal set's hash is its bitwise complement over the host's 64-bit
//! word, so the two constants never collide and are trivially
//! distinguishable.

use vstd::prelude::*;

verus! {

/// The host's native hash of an empty immutable set, a 64-bit hash word.
pub const HASH_EMPTY: i64 = 133146708735736;

/// The bitwise complement of [`HASH_EMPTY`] over the 64-bit hash word.
pub const HASH_UNIVERSE: i64 = -133146708735737;

/// The hash of each singleton.
pub open spec fn hash_spec(s: crate::algebra::SymbolicSet) -> i64 {
    match s {
        crate::algebra::SymbolicSet::Empty => HASH_EMPTY,
        crate::algebra::SymbolicSet::Universe => HASH_UNIVERSE,
    }
}

/// The two hash constants are exact bitwise complements: XORed over the
/// 64-bit hash word they give all ones, so they differ in every bit.
pub proof fn lemma_hash_constants_complementary()
    ensures
        (HASH_EMPTY as u64) ^ (HASH_UNIVERSE as u64) == u64::MAX,
        HASH_EMPTY != HASH_UNIVERSE,
{
    assert((133146708735736i64 as u64) ^ ((-133146708735737i64) as u64)
        == 0xffff_ffff_ffff_ffffu64) by (bit_vector);
}

} // verus!
