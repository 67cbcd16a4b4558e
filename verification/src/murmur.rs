//! The MurmurHash2 64-bit-A algorithm, as a mathematical definition and a
//! verified implementation, plus the streaming hasher built on it.
//!
//! One absorb over a buffer of length `len` with running seed `seed`:
//! initialize `hash = seed ^ (len * m)` (wrap-around multiplication), mix in
//! each full little-endian 8-byte word, fold the 0 to 7 trailing bytes in at
//! bit positions `8 * i` for tail byte `i` (one multiplication by `m` after
//! the whole tail, only if the tail is non-empty), then apply the avalanche.

use vstd::prelude::*;
use crate::words::word_le;

verus! {

/// The MurmurHash2 64-bit multiplier.
pub const MURMUR_M: u64 = 0xc6a4a7935bd1e995;

/// The MurmurHash2 64-bit right-shift amount.
pub const MURMUR_R: u64 = 47;

/// One full 8-byte word `k` mixed into the running hash `h`.
pub open spec fn mix_word(h: u64, k: u64) -> u64 {
    let k1 = k.wrapping_mul(MURMUR_M);
    let k2 = k1 ^ (k1 >> MURMUR_R);
    let k3 = k2.wrapping_mul(MURMUR_M);
    (h ^ k3).wrapping_mul(MURMUR_M)
}

/// The hash after mixing in the first `n` full words of `bytes`, starting
/// from `h`.
pub open spec fn mix_words(h: u64, bytes: Seq<u8>, n: int) -> u64
    decreases n,
{
    if n <= 0 {
        h
    } else {
        mix_word(mix_words(h, bytes, n - 1), word_le(bytes, 8 * (n - 1)))
    }
}

/// The hash after XOR-folding in the first `t` tail bytes of `bytes`
/// (the bytes at `base`, `base + 1`, ...), tail byte `i` at bit position
/// `8 * i`.
pub open spec fn fold_tail(h: u64, bytes: Seq<u8>, base: int, t: int) -> u64
    decreases t,
{
    if t <= 0 {
        h
    } else {
        let shift = (8 * (t - 1)) as u64;
        fold_tail(h, bytes, base, t - 1) ^ ((bytes[base + (t - 1)] as u64) << shift)
    }
}

/// The finalization avalanche: spread every bit's influence across the
/// whole word.
pub open spec fn avalanche(h: u64) -> u64 {
    let h1 = (h ^ (h >> MURMUR_R)).wrapping_mul(MURMUR_M);
    h1 ^ (h1 >> MURMUR_R)
}

/// The MurmurHash2 64-bit-A digest of `key` under `seed`.
pub open spec fn murmur64a(key: Seq<u8>, seed: u64) -> u64 {
    let len = key.len() as int;
    let h0 = seed ^ (key.len() as u64).wrapping_mul(MURMUR_M);
    let h1 = mix_words(h0, key, len / 8);
    let h2 = if len % 8 == 0 {
        h1
    } else {
        fold_tail(h1, key, 8 * (len / 8), len % 8).wrapping_mul(MURMUR_M)
    };
    avalanche(h2)
}

/// Hash `key` with MurmurHash2 64-bit-A under `seed`.
pub fn murmur_hash64a(key: &[u8], seed: u64) -> (digest: u64)
    ensures
        digest == murmur64a(key@, seed),
{
    let len: usize = key.len();
    let mut hash: u64 = seed ^ (len as u64).wrapping_mul(MURMUR_M);
    let ghost h0: u64 = hash;
    let nblocks: usize = len / 8;
    let mut i: usize = 0;
    while i < nblocks
        invariant
            i <= nblocks,
            nblocks == len / 8,
            len == key@.len(),
            hash == mix_words(h0, key@, i as int),
        decreases nblocks - i,
    {
        let k: u64 = crate::words::load_word_le(key, 8 * i);
        let k1: u64 = k.wrapping_mul(MURMUR_M);
        let k2: u64 = k1 ^ (k1 >> MURMUR_R);
        let k3: u64 = k2.wrapping_mul(MURMUR_M);
        hash = (hash ^ k3).wrapping_mul(MURMUR_M);
        i = i + 1;
    }
    let tail_len: usize = len % 8;
    if tail_len > 0 {
        let base: usize = 8 * nblocks;
        let ghost h_words: u64 = hash;
        let mut j: usize = 0;
        while j < tail_len
            invariant
                j <= tail_len,
                tail_len == len % 8,
                nblocks == len / 8,
                base == 8 * nblocks,
                len == key@.len(),
                hash == fold_tail(h_words, key@, base as int, j as int),
            decreases tail_len - j,
        {
            let shift: u64 = (8 * j) as u64;
            hash = hash ^ ((key[base + j] as u64) << shift);
            j = j + 1;
        }
        hash = hash.wrapping_mul(MURMUR_M);
    }
    hash = hash ^ (hash >> MURMUR_R);
    hash = hash.wrapping_mul(MURMUR_M);
    hash = hash ^ (hash >> MURMUR_R);
    hash
}

/// Determinism: the digest is a function of the buffer and the seed alone,
/// so hashing the same buffer twice under the same seed gives the same
/// digest.
pub proof fn lemma_digest_deterministic(key: Seq<u8>, seed: u64, d1: u64, d2: u64)
    requires
        d1 == murmur64a(key, seed),
        d2 == murmur64a(key, seed),
    ensures
        d1 == d2,
{
}

/// Streaming is seed-chaining: absorbing `b1` and then `b2` yields the
/// digest of `b2` hashed with the digest of `b1` as its seed — not, in
/// general, the digest of the concatenation of the two buffers.
pub proof fn lemma_streaming_is_seed_chaining(b1: Seq<u8>, b2: Seq<u8>, seed: u64, s1: u64, s2: u64)
    requires
        s1 == murmur64a(b1, seed),
        s2 == murmur64a(b2, s1),
    ensures
        s2 == murmur64a(b2, murmur64a(b1, seed)),
{
}

/// An empty buffer skips the word and tail stages entirely: its digest is
/// the avalanche of the seed alone.
pub proof fn lemma_empty_key_is_avalanche(seed: u64)
    ensures
        murmur64a(Seq::<u8>::empty(), seed) == avalanche(seed),
{
    assert((0u64).wrapping_mul(MURMUR_M) == 0);
    assert(seed ^ 0u64 == seed) by (bit_vector);
}

/// The streaming MurmurHash2 64-bit-A hasher: each absorb treats the
/// current state as the seed for hashing that buffer and stores the
/// digest back, so repeated absorbs chain seeds rather than hash the
/// concatenation.
#[allow(non_camel_case_types)]
pub struct Murmur2_64a {
    seed: u64,
}

impl View for Murmur2_64a {
    type V = u64;

    closed spec fn view(&self) -> u64 {
        self.seed
    }
}

impl Murmur2_64a {
    /// A fresh hasher with the default seed 0.
    pub fn new() -> (h: Murmur2_64a)
        ensures
            h@ == 0,
    {
        Murmur2_64a { seed: 0 }
    }

    /// A fresh hasher carrying a caller-supplied seed.
    pub fn with_seed(seed: u64) -> (h: Murmur2_64a)
        ensures
            h@ == seed,
    {
        Murmur2_64a { seed }
    }

    /// Absorb a buffer of any length, zero included: the state becomes
    /// the digest of `msg` hashed with the current state as its seed.
    pub fn write(&mut self, msg: &[u8])
        ensures
            final(self)@ == murmur64a(msg@, old(self)@),
    {
        self.seed = murmur_hash64a(msg, self.seed);
    }

    /// The current digest; reading it never changes the state.
    pub fn finish(&self) -> (digest: u64)
        ensures
            digest == self@,
    {
        self.seed
    }

    /// Derive a fresh hasher seeded with the current state.
    pub fn build_hasher(&self) -> (h: Murmur2_64a)
        ensures
            h@ == self@,
    {
        Murmur2_64a { seed: self.seed }
    }
}

} // verus!
