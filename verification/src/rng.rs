//! Seeded pseudo-random fault source.
//!
//! The simulator draws its fault decisions from a ChaCha8 generator.  The
//! word drawn at each position of the stream is a pure function of the seed
//! and the position, which is what makes a whole run reproducible from its
//! seed alone.  The generator itself lives in an outside crate; this module
//! gives it an abstract model (a seed and a position in the stream) and wraps
//! the two calls the simulator makes.

use vstd::prelude::*;

verus! {

#[verifier::external_type_specification]
#[verifier::external_body]
pub struct ExChaCha8Rng(rand_chacha::ChaCha8Rng);

/// The seed a generator was created from.
pub uninterp spec fn rng_seed_of(r: rand_chacha::ChaCha8Rng) -> u64;

/// How many 64-bit words have been drawn from the generator so far.
pub uninterp spec fn rng_pos_of(r: rand_chacha::ChaCha8Rng) -> nat;

/// The 64-bit word at a given position of the ChaCha8 output stream for a
/// given seed.  ChaCha8 is a stream cipher, so this is a pure function of the
/// seed and the position, identical on every machine and in every process.
pub uninterp spec fn chacha_word(seed: u64, pos: nat) -> u64;

/// Relies on `<ChaCha8Rng as SeedableRng>::seed_from_u64`: the 256-bit key is
/// derived from the 64-bit seed by a fixed PCG-based expansion, and the
/// generator starts at position zero of the stream.
#[verifier::external_body]
pub(crate) fn rng_from_seed(seed: u64) -> (r: rand_chacha::ChaCha8Rng)
    ensures
        rng_seed_of(r) == seed,
        rng_pos_of(r) == 0,
{
    <rand_chacha::ChaCha8Rng as rand_chacha::rand_core::SeedableRng>::seed_from_u64(seed)
}

/// Relies on `<ChaCha8Rng as RngCore>::next_u64`: the word drawn depends on
/// the seed and the position in the stream alone, and the draw advances the
/// position by one.
#[verifier::external_body]
pub(crate) fn rng_next_u64(r: &mut rand_chacha::ChaCha8Rng) -> (w: u64)
    ensures
        w == chacha_word(rng_seed_of(*old(r)), rng_pos_of(*old(r))),
        rng_seed_of(*final(r)) == rng_seed_of(*old(r)),
        rng_pos_of(*final(r)) == rng_pos_of(*old(r)) + 1,
{
    rand_chacha::rand_core::RngCore::next_u64(r)
}

} // verus!
