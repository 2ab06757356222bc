//! MurmurHash3, x86 32-bit variant: a non-cryptographic hash that maps a
//! 32-bit seed and an arbitrary byte sequence to a 32-bit digest.
//!
//! The mathematical definition of the digest lives in the spec functions
//! below: the input is split into 4-byte little-endian words plus a tail of
//! at most three bytes, each word is mixed into an accumulator seeded by the
//! caller, and a final avalanche mix spreads the bits of the accumulator.
//! The executable hasher is proved to return exactly that value, so every
//! call is total, panic-free and deterministic.

use vstd::prelude::*;

verus! {

/// First multiplicative constant of the word mix.
pub const C1: u32 = 0xcc9e2d51;

/// Second multiplicative constant of the word mix.
pub const C2: u32 = 0x1b873593;

/// Constant added after each full block.
pub const ROUND: u32 = 0xe6546b64;

/// First multiplicative constant of the finalization mix.
pub const FMIX1: u32 = 0x85ebca6b;

/// Second multiplicative constant of the finalization mix.
pub const FMIX2: u32 = 0xc2b2ae35;

/// The mix applied to each 32-bit input word before it is folded into the
/// accumulator: multiply by `C1`, rotate left by 15, multiply by `C2`.
/// All multiplication is modulo 2^32.
pub open spec fn spec_mix_word(k: u32) -> u32 {
    let ka = vstd::wrapping::u32_specs::wrapping_mul(k, C1);
    let kb = (ka << 15) | (ka >> 17);
    vstd::wrapping::u32_specs::wrapping_mul(kb, C2)
}

/// One round of the block loop: fold a mixed word into the accumulator,
/// rotate left by 13, then scale by 5 and add the round constant, all
/// modulo 2^32.
pub open spec fn spec_block_round(h: u32, k: u32) -> u32 {
    let hx = h ^ spec_mix_word(k);
    let hr = (hx << 13) | (hx >> 19);
    vstd::wrapping::u32_specs::wrapping_add(
        vstd::wrapping::u32_specs::wrapping_mul(hr, 5),
        ROUND,
    )
}

/// The 32-bit little-endian word formed by the four bytes of block `i`,
/// i.e. bytes `4*i .. 4*i + 4` of the input.
pub open spec fn spec_block_word(data: Seq<u8>, i: int) -> u32 {
    (data[4 * i] as u32)
    | ((data[4 * i + 1] as u32) << 8)
    | ((data[4 * i + 2] as u32) << 16)
    | ((data[4 * i + 3] as u32) << 24)
}

/// The accumulator after the first `n` full blocks have been folded into
/// the seed, in sequence order.
pub open spec fn spec_blocks(seed: u32, data: Seq<u8>, n: int) -> u32
    decreases n,
{
    if n <= 0 {
        seed
    } else {
        spec_block_round(spec_blocks(seed, data, n - 1), spec_block_word(data, n - 1))
    }
}

/// The 0-3 trailing bytes that do not form a full block, packed
/// little-endian into a 32-bit word: byte 0 of the tail at bits 0-7,
/// byte 1 at bits 8-15, byte 2 at bits 16-23. An empty tail packs to 0.
pub open spec fn spec_tail_word(data: Seq<u8>) -> u32 {
    let base = 4 * (data.len() as int / 4);
    if data.len() % 4 == 3 {
        (data[base] as u32) | ((data[base + 1] as u32) << 8) | ((data[base + 2] as u32) << 16)
    } else if data.len() % 4 == 2 {
        (data[base] as u32) | ((data[base + 1] as u32) << 8)
    } else if data.len() % 4 == 1 {
        (data[base] as u32)
    } else {
        0
    }
}

/// The accumulator after the tail has been folded in: a non-empty tail is
/// mixed exactly like a block word and XORed in, but without the rotate and
/// scale round that only full blocks get; an empty tail changes nothing.
pub open spec fn spec_with_tail(seed: u32, data: Seq<u8>) -> u32 {
    let hb = spec_blocks(seed, data, data.len() as int / 4);
    if data.len() % 4 == 0 {
        hb
    } else {
        hb ^ spec_mix_word(spec_tail_word(data))
    }
}

/// The finalization (avalanche) mix: three XOR-shifts interleaved with two
/// multiplications modulo 2^32.
pub open spec fn spec_fmix(h: u32) -> u32 {
    let ha = h ^ (h >> 16);
    let hb = vstd::wrapping::u32_specs::wrapping_mul(ha, FMIX1);
    let hc = hb ^ (hb >> 13);
    let hd = vstd::wrapping::u32_specs::wrapping_mul(hc, FMIX2);
    hd ^ (hd >> 16)
}

/// The MurmurHash3 x86 32-bit digest of `data` under `seed`: fold all full
/// blocks and the tail into the seed, XOR in the input length truncated to
/// 32 bits, and apply the avalanche mix.
pub open spec fn spec_murmur3_32(seed: u32, data: Seq<u8>) -> u32 {
    spec_fmix(spec_with_tail(seed, data) ^ ((data.len() % 0x1_0000_0000) as u32))
}

/// Computes the MurmurHash3 x86 32-bit digest of `data` under `seed`.
///
/// Total over every `(seed, data)` pair, including the empty sequence; the
/// digest is exactly the mathematical value `spec_murmur3_32(seed, data@)`.
pub fn murmur3_32(seed: u32, data: &[u8]) -> (digest: u32)
    ensures
        digest == spec_murmur3_32(seed, data@),
{
    let len: usize = data.len();
    let n_blocks: usize = len / 4;
    let mut h: u32 = seed;
    let mut i: usize = 0;
    while i < n_blocks
        invariant
            i <= n_blocks,
            n_blocks == len / 4,
            len == data@.len(),
            h == spec_blocks(seed, data@, i as int),
        decreases n_blocks - i,
    {
        let b0 = data[4 * i] as u32;
        let b1 = data[4 * i + 1] as u32;
        let b2 = data[4 * i + 2] as u32;
        let b3 = data[4 * i + 3] as u32;
        let k: u32 = b0 | (b1 << 8u32) | (b2 << 16u32) | (b3 << 24u32);
        let k = k.wrapping_mul(C1);
        let k = (k << 15u32) | (k >> 17u32);
        let k = k.wrapping_mul(C2);
        h = h ^ k;
        h = (h << 13u32) | (h >> 19u32);
        h = h.wrapping_mul(5).wrapping_add(ROUND);
        i = i + 1;
    }
    let tail_len: usize = len % 4;
    let base: usize = len - tail_len;
    if tail_len > 0 {
        let mut k: u32 = data[base] as u32;
        if tail_len >= 2 {
            k = k | ((data[base + 1] as u32) << 8u32);
        }
        if tail_len == 3 {
            k = k | ((data[base + 2] as u32) << 16u32);
        }
        let k = k.wrapping_mul(C1);
        let k = (k << 15u32) | (k >> 17u32);
        let k = k.wrapping_mul(C2);
        h = h ^ k;
    }
    let len_low: u32 = (len as u64 % 0x1_0000_0000) as u32;
    h = h ^ len_low;
    h = h ^ (h >> 16u32);
    h = h.wrapping_mul(FMIX1);
    h = h ^ (h >> 13u32);
    h = h.wrapping_mul(FMIX2);
    h = h ^ (h >> 16u32);
    h
}

/// Seeds that can hash a byte sequence into a 32-bit digest.
pub trait Murmur3: Sized {
    /// The digest that `murmur_hash` returns for this seed and input.
    spec fn digest_spec(self, bytes: Seq<u8>) -> u32;

    /// Hashes `bytes` with `self` as the seed.
    fn murmur_hash(self, bytes: &[u8]) -> (digest: u32)
        ensures
            digest == self.digest_spec(bytes@),
    ;
}

impl Murmur3 for u32 {
    /// A `u32` seed yields the MurmurHash3 x86 32-bit digest.
    open spec fn digest_spec(self, bytes: Seq<u8>) -> u32 {
        spec_murmur3_32(self, bytes)
    }

    fn murmur_hash(self, bytes: &[u8]) -> (digest: u32) {
        murmur3_32(self, bytes)
    }
}

/// Determinism: the digest is a function of the seed and the data alone,
/// so any two digests computed from the same pair are identical.
pub proof fn lemma_hash_deterministic(seed: u32, data: Seq<u8>, d1: u32, d2: u32)
    requires
        d1 == spec_murmur3_32(seed, data),
        d2 == spec_murmur3_32(seed, data),
    ensures
        d1 == d2,
{
}

} // verus!
