//! A 32-bit MurmurHash2 with a fixed seed of zero, reading words
//! little-endian.  The generated class names embed this hash, so the exact
//! bit-level behaviour is pinned down by `spec_murmur2` and proved of the
//! executable `murmurhash2`.

use vstd::prelude::*;
use vstd::wrapping::u32_specs;

verus! {

/// The multiplicative constant of MurmurHash2.
pub const MURMUR_M: u32 = 0x5bd1e995;

/// The little-endian 32-bit word starting at index `i` of `b`.
pub open spec fn word_at(b: Seq<u8>, i: int) -> u32 {
    (b[i] as u32) | ((b[i + 1] as u32) << 8u32) | ((b[i + 2] as u32) << 16u32) | ((b[i
        + 3] as u32) << 24u32)
}

/// One MurmurHash2 round: mix the word `k` into the state `h`.
pub open spec fn mix_word(h: u32, k: u32) -> u32 {
    let k1 = u32_specs::wrapping_mul(k, MURMUR_M);
    let k2 = k1 ^ (k1 >> 24u32);
    let k3 = u32_specs::wrapping_mul(k2, MURMUR_M);
    u32_specs::wrapping_mul(h, MURMUR_M) ^ k3
}

/// Folds the up-to-three trailing bytes into the state.
pub open spec fn tail_mix(h: u32, b: Seq<u8>) -> u32 {
    if b.len() == 3 {
        u32_specs::wrapping_mul(
            ((h ^ ((b[2] as u32) << 16u32)) ^ ((b[1] as u32) << 8u32)) ^ (b[0] as u32),
            MURMUR_M,
        )
    } else if b.len() == 2 {
        u32_specs::wrapping_mul((h ^ ((b[1] as u32) << 8u32)) ^ (b[0] as u32), MURMUR_M)
    } else if b.len() == 1 {
        u32_specs::wrapping_mul(h ^ (b[0] as u32), MURMUR_M)
    } else {
        h
    }
}

/// Consumes `b` four bytes at a time, then the tail.
pub open spec fn rounds(h: u32, b: Seq<u8>) -> u32
    decreases b.len(),
{
    if b.len() >= 4 {
        rounds(mix_word(h, word_at(b, 0)), b.skip(4))
    } else {
        tail_mix(h, b)
    }
}

/// The final avalanche of MurmurHash2.
pub open spec fn avalanche(h: u32) -> u32 {
    let h1 = h ^ (h >> 13u32);
    let h2 = u32_specs::wrapping_mul(h1, MURMUR_M);
    h2 ^ (h2 >> 15u32)
}

/// The initial state: the seed (zero) xor the input length truncated to 32
/// bits.
pub open spec fn len_seed(n: nat) -> u32 {
    (n % 0x1_0000_0000) as u32
}

/// MurmurHash2 of a byte sequence, seed zero.
pub open spec fn spec_murmur2(b: Seq<u8>) -> u32 {
    avalanche(rounds(len_seed(b.len()), b))
}

/// The executable MurmurHash2, proved equal to `spec_murmur2`.
pub fn murmurhash2(key: &Vec<u8>) -> (h: u32)
    ensures
        h == spec_murmur2(key@),
{
    let len: usize = key.len();
    let seed: u32 = ((len as u64) % 0x1_0000_0000u64) as u32;
    assert(seed == len_seed(key@.len()));
    let mut h: u32 = seed;
    let mut i: usize = 0;
    proof {
        assert(key@.skip(0) =~= key@);
    }
    while len - i >= 4
        invariant
            i <= len,
            len == key@.len(),
            rounds(h, key@.skip(i as int)) == rounds(len_seed(key@.len()), key@),
        decreases len - i,
    {
        let mut k: u32 = (key[i] as u32) | ((key[i + 1] as u32) << 8u32) | ((key[i
            + 2] as u32) << 16u32) | ((key[i + 3] as u32) << 24u32);
        let ghost kw: u32 = k;
        proof {
            assert(kw == word_at(key@.skip(i as int), 0));
        }
        k = k.wrapping_mul(MURMUR_M);
        k = k ^ (k >> 24u32);
        k = k.wrapping_mul(MURMUR_M);
        let ghost h_old: u32 = h;
        h = h.wrapping_mul(MURMUR_M) ^ k;
        proof {
            assert(h == mix_word(h_old, kw));
            assert(key@.skip(i as int).skip(4) =~= key@.skip(i as int + 4));
        }
        i = i + 4;
    }
    let rem: usize = len - i;
    if rem == 3 {
        h = h ^ ((key[i + 2] as u32) << 16u32);
        h = h ^ ((key[i + 1] as u32) << 8u32);
        h = h ^ (key[i] as u32);
        h = h.wrapping_mul(MURMUR_M);
    } else if rem == 2 {
        h = h ^ ((key[i + 1] as u32) << 8u32);
        h = h ^ (key[i] as u32);
        h = h.wrapping_mul(MURMUR_M);
    } else if rem == 1 {
        h = h ^ (key[i] as u32);
        h = h.wrapping_mul(MURMUR_M);
    }
    h = h ^ (h >> 13u32);
    h = h.wrapping_mul(MURMUR_M);
    h = h ^ (h >> 15u32);
    h
}

} // verus!
