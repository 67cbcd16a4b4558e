use hashers64::murmur_hash64a;
use hashers64::Murmur2_64a;

#[test]
fn murmur_empty_key_seed_zero_is_zero() {
    // The finalize-only path: avalanche(0) == 0.
    assert_eq!(murmur_hash64a(&[], 0), 0);
}

#[test]
fn murmur_is_deterministic() {
    let key = [0x12u8, 0x34, 0x56, 0x78, 0x9a, 0xbc, 0xde, 0xf0, 0x11, 0x22, 0x33];
    let seed = 0x0123_4567_89ab_cdef;
    assert_eq!(murmur_hash64a(&key, seed), murmur_hash64a(&key, seed));

    let mut h1 = Murmur2_64a::new();
    h1.write(&key);
    let mut h2 = Murmur2_64a::new();
    h2.write(&key);
    assert_eq!(h1.finish(), h2.finish());
}

#[test]
fn murmur_tail_lengths_all_zero_bytes() {
    let expected: [u64; 8] = [
        0x0,
        0x5825f5f3bd962979,
        0xb04bebe77b2c52f3,
        0x3e2841ba9200776a,
        0x6097d7cef65aa5e7,
        0x180667c0fd80ca26,
        0xcb773b18f72b809a,
        0x70ba9efe97034667,
    ];
    let zeros = [0u8; 8];
    for len in 0..8usize {
        assert_eq!(murmur_hash64a(&zeros[..len], 0), expected[len], "len {}", len);
    }
}

#[test]
fn murmur_tail_lengths_all_ff_bytes() {
    let expected: [u64; 8] = [
        0x0,
        0x35a929b9e9362122,
        0x1ba4668e935c8162,
        0x66b1889d2f307015,
        0x5f72b8ec20d31054,
        0x9868b8ef80e90185,
        0xdd33f93c6b663f6b,
        0x27f9346d84b0966e,
    ];
    let ffs = [0xffu8; 8];
    for len in 0..8usize {
        assert_eq!(murmur_hash64a(&ffs[..len], 0), expected[len], "len {}", len);
    }
}

#[test]
fn murmur_tail_lengths_ascending_bytes() {
    let expected: [u64; 8] = [
        0x0,
        0x5825f5f3bd962979,
        0x89888394ef734498,
        0xc86fd0e19fe2f249,
        0x8f44e949858b85f6,
        0x32dfe4d1ba6d2e88,
        0x867f84331ce9e452,
        0xa471bc963514706d,
    ];
    let ascending = [0u8, 1, 2, 3, 4, 5, 6, 7];
    for len in 0..8usize {
        assert_eq!(murmur_hash64a(&ascending[..len], 0), expected[len], "len {}", len);
    }
}

#[test]
fn murmur_block_plus_tail_lengths() {
    // Lengths 8..=15 over ascending bytes: one full word plus every tail length.
    let expected: [u64; 8] = [
        0x53ed3741240b250c,
        0x3ca12618533c59af,
        0xe4d22de0d49dc9f7,
        0xba6a7874cd3c0b6f,
        0x12091493574d6d4d,
        0x4119ccb260c24d95,
        0x37b7e37b1f66fffd,
        0x9416c982407481ab,
    ];
    let ascending: Vec<u8> = (0u8..16).collect();
    for len in 8..16usize {
        assert_eq!(murmur_hash64a(&ascending[..len], 0), expected[len - 8], "len {}", len);
    }
}

#[test]
fn murmur_seed_sensitivity() {
    let key: Vec<u8> = (0u8..16).collect();
    let d1 = murmur_hash64a(&key, 1);
    let d2 = murmur_hash64a(&key, 2);
    assert_eq!(d1, 0x4288f0e2bc2b89c5);
    assert_eq!(d2, 0x1e5b32c772decb32);
    assert_ne!(d1, d2);
}

#[test]
fn murmur_nonzero_seed_vector() {
    assert_eq!(murmur_hash64a(b"hello, world", 0xdeadbeef), 0x618b96da5897d326);
}

#[test]
fn murmur_seeded_construction_matches_free_function() {
    // With seed s and zero absorbs, finalize returns s.
    let seed = 0xdeadbeefu64;
    assert_eq!(Murmur2_64a::with_seed(seed).finish(), seed);

    let mut h = Murmur2_64a::with_seed(seed);
    h.write(b"hello, world");
    assert_eq!(h.finish(), murmur_hash64a(b"hello, world", seed));
    assert_eq!(h.finish(), 0x618b96da5897d326);
}

#[test]
fn murmur_split_absorb_chains_seeds() {
    let whole: Vec<u8> = (0u8..16).collect();
    let (front, back) = whole.split_at(8);

    // Streaming is seed-chaining: absorbing the halves one after the other
    // equals hashing the second half with the first half's digest as seed...
    let mut split = Murmur2_64a::new();
    split.write(front);
    split.write(back);
    let chained = murmur_hash64a(back, murmur_hash64a(front, 0));
    assert_eq!(split.finish(), chained);
    assert_eq!(split.finish(), 0x02c3ea5dc01ed9f2);

    // ...and is not the digest of the whole buffer absorbed in one call.
    let mut one_call = Murmur2_64a::new();
    one_call.write(&whole);
    assert_eq!(one_call.finish(), 0xe6709e192441a2f3);
    assert_ne!(split.finish(), one_call.finish());
}

#[test]
fn murmur_finish_is_idempotent_and_factory_carries_seed() {
    let mut h = Murmur2_64a::new();
    h.write(b"bucket key");
    let first = h.finish();
    assert_eq!(h.finish(), first);

    // A derived hasher starts from the current state: with no further
    // absorbs it finalizes to the same digest.
    let derived = h.build_hasher();
    assert_eq!(derived.finish(), first);

    // A fresh hasher starts from seed 0 again.
    assert_eq!(Murmur2_64a::new().finish(), 0);
}
