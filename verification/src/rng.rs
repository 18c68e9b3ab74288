//! The 64-bit linear congruential generator behind the engine's noise.

use vstd::prelude::*;
use vstd::arithmetic::div_mod::lemma_add_mod_noop;
use crate::hash::word_modulus;

verus! {

/// Multiplier of the generator (Knuth's MMIX constant).
pub const LCG_MULTIPLIER: u64 = 6364136223846793005;

/// The increment used by the generator's standard step.
pub const LCG_INCREMENT: u64 = 1442695040888963407;

/// One step of the generator: `state * LCG_MULTIPLIER + increment` modulo 2^64.
pub open spec fn lcg_next(state: u64, increment: u64) -> u64 {
    ((state as int * LCG_MULTIPLIER as int + increment as int) % word_modulus()) as u64
}

/// The state after `k` standard steps from `seed`.
pub open spec fn lcg_iterate(seed: u64, k: nat) -> u64
    decreases k,
{
    if k == 0 {
        seed
    } else {
        lcg_next(lcg_iterate(seed, (k - 1) as nat), LCG_INCREMENT)
    }
}

/// The low 16 bits of a state: the raw noise a draw yields.
pub open spec fn low16(state: u64) -> u16 {
    (state % 0x1_0000) as u16
}

/// Advances the generator by one step with the given increment.
pub fn lcg_step(state: u64, increment: u64) -> (next: u64)
    ensures
        next == lcg_next(state, increment),
{
    let product = state.wrapping_mul(LCG_MULTIPLIER);
    let next = product.wrapping_add(increment);
    proof {
        let m = word_modulus();
        lemma_add_mod_noop(state as int * LCG_MULTIPLIER as int, increment as int, m);
        assert(increment as int % m == increment as int);
        assert((product as int + increment as int) % m == next as int);
    }
    next
}

/// The low 16 bits of a state.
pub fn noise_bits(state: u64) -> (bits: u16)
    ensures
        bits == low16(state),
{
    let masked = state & 0xFFFF;
    proof {
        assert(state & 0xFFFF == state % 0x1_0000) by (bit_vector);
    }
    masked as u16
}

/// The generator is the MMIX linear congruential generator: each step
/// multiplies by 6364136223846793005, adds the increment, and keeps the
/// result modulo 2^64; the standard step adds 1442695040888963407.
pub proof fn lemma_generator_arithmetic(state: u64, increment: u64, seed: u64, k: nat)
    ensures
        lcg_next(state, increment) as int == (state as int * 6364136223846793005 + increment as int)
            % 18446744073709551616,
        lcg_iterate(seed, 0) == seed,
        lcg_iterate(seed, k + 1) as int == (lcg_iterate(seed, k) as int * 6364136223846793005
            + 1442695040888963407) % 18446744073709551616,
{
    assert(lcg_iterate(seed, k + 1) == lcg_next(lcg_iterate(seed, k), LCG_INCREMENT));
}

/// The noise of a state is its remainder modulo 2^16.
pub proof fn lemma_low16_is_remainder(state: u64)
    ensures
        low16(state) as int == state as int % 65536,
        low16(state) < 65536,
{
}

} // verus!
