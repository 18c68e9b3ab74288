//! FNV-1a hashing of names and of the bit patterns of coordinates, used to
//! seed the engine's deterministic pseudo-random draws.

use vstd::prelude::*;
use vstd::string::StringSliceAdditionalSpecFns;

verus! {

/// The 64-bit FNV-1a offset basis.
pub const FNV_OFFSET_BASIS: u64 = 0xcbf2_9ce4_8422_2325;

/// The 64-bit FNV-1a prime.
pub const FNV_PRIME: u64 = 0x0100_0000_01b3;

/// 2^64, the modulus of all 64-bit state arithmetic.
pub open spec fn word_modulus() -> int {
    0x1_0000_0000_0000_0000
}

/// One FNV-1a round: xor `x` into the state, then multiply by the prime
/// modulo 2^64.
pub open spec fn fnv_round(h: u64, x: u64) -> u64 {
    (((h ^ x) as int * FNV_PRIME as int) % word_modulus()) as u64
}

/// FNV-1a over a byte sequence, folded from the first byte to the last.
pub open spec fn fnv1a(bytes: Seq<u8>) -> u64
    decreases bytes.len(),
{
    if bytes.len() == 0 {
        FNV_OFFSET_BASIS
    } else {
        fnv_round(fnv1a(bytes.drop_last()), bytes.last() as u64)
    }
}

/// The hash of a 64-bit pattern: two FNV rounds, first on the whole word,
/// then on its upper half.
pub open spec fn bits_hash(bits: u64) -> u64 {
    fnv_round(fnv_round(FNV_OFFSET_BASIS, bits), bits >> 32u64)
}

/// FNV-1a, 64-bit: the empty input hashes to 0xcbf29ce484222325, and each
/// further byte is xored into the hash, which is then multiplied by
/// 0x100000001b3 modulo 2^64.
pub proof fn lemma_fnv1a_definition(bytes: Seq<u8>, b: u8)
    ensures
        fnv1a(Seq::empty()) == 0xcbf2_9ce4_8422_2325u64,
        fnv1a(bytes.push(b)) as int == ((fnv1a(bytes) ^ (b as u64)) as int * 0x100000001b3)
            % 18446744073709551616,
{
    assert(bytes.push(b).drop_last() =~= bytes);
}

/// The hash of a bit pattern is FNV-1a over two 64-bit words: the whole
/// pattern, then its upper 32 bits.
pub proof fn lemma_bits_hash_definition(bits: u64)
    ensures
        ({
            let h1 = (((0xcbf2_9ce4_8422_2325u64 ^ bits) as int * 0x100000001b3)
                % 18446744073709551616) as u64;
            bits_hash(bits) as int == ((h1 ^ (bits >> 32u64)) as int * 0x100000001b3)
                % 18446744073709551616
        }),
{
}

/// FNV-1a hash of the UTF-8 bytes of `s`.
pub fn simple_hash_str(s: &str) -> (h: u64)
    ensures
        h == fnv1a(s.spec_bytes()),
{
    let bytes = s.as_bytes();
    let mut h: u64 = FNV_OFFSET_BASIS;
    let mut i: usize = 0;
    while i < bytes.len()
        invariant
            i <= bytes@.len(),
            bytes@ == s.spec_bytes(),
            h == fnv1a(bytes@.take(i as int)),
        decreases bytes@.len() - i,
    {
        let b = bytes[i];
        h = h ^ (b as u64);
        h = h.wrapping_mul(FNV_PRIME);
        proof {
            assert(bytes@.take(i + 1).drop_last() =~= bytes@.take(i as int));
        }
        i = i + 1;
    }
    proof {
        assert(bytes@.take(bytes@.len() as int) =~= bytes@);
    }
    h
}

/// Hash of the bit pattern of a floating-point value, given as the `u64`
/// that `f64::to_bits` returns for it.
pub fn simple_hash_f64_bits(bits: u64) -> (h: u64)
    ensures
        h == bits_hash(bits),
{
    let mut h: u64 = FNV_OFFSET_BASIS;
    h = h ^ bits;
    h = h.wrapping_mul(FNV_PRIME);
    h = h ^ (bits >> 32);
    h = h.wrapping_mul(FNV_PRIME);
    h
}

} // verus!
