use murmur3_hash::{murmur3_32, Murmur3};

/// The independent pure-Rust reference implementation, for cross-checking.
fn reference_hash(data: &[u8], seed: u32) -> u32 {
    murmur3::murmur3_32(&mut std::io::Cursor::new(data), seed).unwrap()
}

#[test]
fn determinism_repeated_calls() {
    let data = b"some fixed input buffer";
    for seed in [0u32, 1, 9001, 0xffff_ffff] {
        let first = murmur3_32(seed, data);
        for _ in 0..10 {
            assert_eq!(murmur3_32(seed, data), first);
        }
    }
    assert_eq!(murmur3_32(7, b""), murmur3_32(7, b""));
}

#[test]
fn empty_input_seed_zero() {
    assert_eq!(murmur3_32(0, b""), 0x0000_0000);
}

#[test]
fn known_vectors() {
    assert_eq!(murmur3_32(0, b"test"), 0xba6b_d213);
    assert_eq!(murmur3_32(9001, b"Hello, world!"), 0xa92a_b3cb);
    assert_eq!(murmur3_32(0, b"Hello, world!"), 0xc036_3e43);
    assert_eq!(murmur3_32(1, b""), 0x514e_28b7);
}

#[test]
fn tail_boundaries() {
    // Lengths covering every tail length L mod 4 in {0, 1, 2, 3}, with
    // fixed content 1, 2, ..., L and seed 42.
    let expected: [(usize, u32); 5] = [
        (3, 0x2be8_24df),
        (4, 0xffda_2176),
        (5, 0x687d_6842),
        (7, 0xe783_1cf2),
        (8, 0x469c_56c9),
    ];
    for (len, digest) in expected {
        let data: Vec<u8> = (1..=len as u8).collect();
        assert_eq!(murmur3_32(42, &data), digest);
        assert_eq!(reference_hash(&data, 42), digest);
    }
}

#[test]
fn length_sensitivity() {
    let base = b"length sensitivity base";
    let original = murmur3_32(0, base);
    for extra in [0x00u8, 0x01, 0x7f, 0xff] {
        let mut longer = base.to_vec();
        longer.push(extra);
        assert_ne!(murmur3_32(0, &longer), original);
    }
}

#[test]
fn seed_sensitivity() {
    let data = b"seed sensitivity sample";
    let digests: Vec<u32> = (0..64u32).map(|seed| murmur3_32(seed, data)).collect();
    for i in 0..digests.len() {
        for j in 0..i {
            assert_ne!(digests[i], digests[j]);
        }
    }
}

#[test]
fn end_to_end_chaining() {
    let buffer = [0u8; 85];
    let mut h: u32 = 0;
    for _ in 0..1000 {
        h = murmur3_32(h, &buffer);
    }
    assert_eq!(h, 0x6ecb_7b51);

    // A second independent run reproduces the same chain.
    let mut again: u32 = 0;
    for _ in 0..1000 {
        again = again.murmur_hash(&buffer);
    }
    assert_eq!(again, h);

    // The reference implementation follows the identical chain.
    let mut r: u32 = 0;
    for _ in 0..1000 {
        r = reference_hash(&buffer, r);
    }
    assert_eq!(r, h);
}

#[test]
fn matches_reference_crate() {
    for seed in [0u32, 1, 42, 9001, 0xdead_beef] {
        for len in 0..=64usize {
            let data: Vec<u8> = (0..len).map(|i| (i as u8).wrapping_mul(37).wrapping_add(11)).collect();
            assert_eq!(murmur3_32(seed, &data), reference_hash(&data, seed));
        }
    }
}

#[test]
fn trait_agrees_with_function() {
    let data = b"trait and free function agree";
    for seed in [0u32, 5, 123_456_789] {
        assert_eq!(seed.murmur_hash(data), murmur3_32(seed, data));
    }
}
