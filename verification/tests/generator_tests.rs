use sfmt::generator::SFMT;
use sfmt::Mexp;

/// The PCG32 stretch that rand_core's `seed_from_u64` applies to a 64-bit
/// seed before handing four bytes to `from_seed`.
fn seed_bytes_from_u64(state: u64) -> [u8; 4] {
    const MUL: u64 = 6364136223846793005;
    const INC: u64 = 11634580027462260723;
    let state = state.wrapping_mul(MUL).wrapping_add(INC);
    let xorshifted = (((state >> 18) ^ state) >> 27) as u32;
    let rot = (state >> 59) as u32;
    xorshifted.rotate_right(rot).to_le_bytes()
}

/// One step of the seed-expansion mixing recurrence, as a signed 32-bit
/// computation.
fn mix(pre: u32, i: u32) -> u32 {
    let pre_signed = pre as i32;
    let sheared = pre_signed ^ (pre_signed >> 30);
    1812433253u32.wrapping_mul(sheared as u32).wrapping_add(i)
}

/// The first `count` words of the seed expansion (before certification),
/// in the flattened 32-bit view.
fn expansion_words(seed: u32, count: usize) -> Vec<u32> {
    let mut words = Vec::new();
    let mut pre = seed;
    let mut k: u32 = 0;
    while words.len() < count {
        let a = pre;
        let b = mix(a, 4 * k + 1);
        let c = mix(b, 4 * k + 2);
        let d = mix(c, 4 * k + 3);
        pre = mix(c, 4 * k + 4);
        for w in [a, b, c, d] {
            words.push(w);
        }
        k += 1;
    }
    words.truncate(count);
    words
}

/// The certification parity of a first block given as four lanes.
fn parity(lanes: [u32; 4], pty: [u32; 4]) -> u32 {
    let mut inner = 0u32;
    for i in 0..4 {
        inner ^= lanes[i] & pty[i];
    }
    for sh in [16, 8, 4, 2, 1] {
        inner ^= inner >> sh;
    }
    inner & 1
}

#[test]
fn random() {
    let mut rng = SFMT::from_seed(Mexp::M19937, seed_bytes_from_u64(0));
    for _ in 0..19937 * 20 {
        // Generate many random numbers to test the overwrap
        let r = rng.next_u64();
        if r % 2 == 0 {
            let _r = rng.next_u32();
        } // shift SFMT.idx randomly
    }
}

#[test]
fn determinism_same_seed_same_stream() {
    let seed = 1234u32.to_le_bytes();
    let mut a = SFMT::from_seed(Mexp::M19937, seed);
    let mut b = SFMT::from_seed(Mexp::M19937, seed);
    for i in 0..3000 {
        if i % 3 == 0 {
            assert_eq!(a.next_u64(), b.next_u64());
        } else {
            assert_eq!(a.next_u32(), b.next_u32());
        }
    }
}

#[test]
fn determinism_all_sizes() {
    let sizes = [
        Mexp::M607,
        Mexp::M1279,
        Mexp::M2281,
        Mexp::M4253,
        Mexp::M11213,
        Mexp::M19937,
        Mexp::M44497,
        Mexp::M86243,
        Mexp::M132049,
        Mexp::M216091,
    ];
    for m in sizes {
        let mut a = SFMT::from_seed(m, 42u32.to_le_bytes());
        let mut b = SFMT::from_seed(m, 42u32.to_le_bytes());
        for _ in 0..200 {
            assert_eq!(a.next_u32(), b.next_u32());
        }
        assert_eq!(a.next_u64(), b.next_u64());
    }
}

#[test]
fn pinned_outputs_m19937() {
    let mut g = SFMT::from_seed(Mexp::M19937, 1234u32.to_le_bytes());
    let expected: [u32; 10] = [
        1814918486, 547865170, 3928850206, 743471875, 1186232870, 3580501994, 373306236,
        3973985017, 3125829176, 1812186436,
    ];
    for e in expected {
        assert_eq!(g.next_u32(), e);
    }
    let mut h = SFMT::from_seed(Mexp::M19937, 1234u32.to_le_bytes());
    let expected64: [u64; 3] = [
        2353062989582398806,
        3193187392549650206,
        15378138968679021094,
    ];
    for e in expected64 {
        assert_eq!(h.next_u64(), e);
    }
}

#[test]
fn pinned_outputs_m607() {
    let mut g = SFMT::from_seed(Mexp::M607, 5678u32.to_le_bytes());
    let expected: [u32; 10] = [
        3504137206, 483708220, 2351792029, 690353402, 2966627183, 3604121507, 3217209002,
        3696608329, 1658145851, 4105613124,
    ];
    for e in expected {
        assert_eq!(g.next_u32(), e);
    }
}

#[test]
fn seed_expansion_exact_words() {
    // Seed 1234 passes the parity check unchanged, so the state right
    // after construction is the bare expansion.
    let g = SFMT::from_seed(Mexp::M19937, 1234u32.to_le_bytes());
    let expected: [u32; 8] = [
        1234, 3159640283, 902106779, 1976350250, 1976350251, 3127269527, 2417311091, 2543269544,
    ];
    for (i, e) in expected.iter().enumerate() {
        assert_eq!(g.state_word(i), *e);
    }
    assert_eq!(expected[1], mix(1234, 1));
    assert_eq!(expected[4], mix(expected[2], 4));
}

#[test]
fn cursor_exhaustion_boundary() {
    // M607: five blocks, twenty 32-bit words per generation.
    let mut g = SFMT::from_seed(Mexp::M607, 9u32.to_le_bytes());
    let n32 = 4 * g.params().n;
    assert_eq!(g.cursor(), n32);
    // The first read regenerates once.
    g.next_u32();
    assert_eq!(g.cursor(), 1);
    let generation: Vec<u32> = (0..n32).map(|i| g.state_word(i)).collect();
    // Reads up to the n32-th serve words of that same generation.
    for c in 1..n32 {
        let w = g.next_u32();
        assert_eq!(w, generation[c]);
        for i in 0..n32 {
            assert_eq!(g.state_word(i), generation[i]);
        }
    }
    assert_eq!(g.cursor(), n32);
    // The read after that regenerates exactly then.
    g.next_u32();
    assert_eq!(g.cursor(), 1);
    let changed = (0..n32).any(|i| g.state_word(i) != generation[i]);
    assert!(changed);
}

#[test]
fn interleave_never_straddles_generations() {
    let mut g = SFMT::from_seed(Mexp::M607, 77u32.to_le_bytes());
    for round in 0..500 {
        if round % 2 == 0 {
            g.next_u32();
        }
        let v = g.next_u64();
        // Both halves are adjacent words of the state the read left
        // behind, the lower index in the low half.
        let c = g.cursor();
        let lo = g.state_word(c - 2);
        let hi = g.state_word(c - 1);
        assert_eq!(v, (lo as u64) | ((hi as u64) << 32));
    }
}

#[test]
fn u64_read_discards_single_leftover_word() {
    let mut g = SFMT::from_seed(Mexp::M607, 3u32.to_le_bytes());
    let n32 = 4 * g.params().n;
    g.next_u32();
    for _ in 0..n32 - 2 {
        g.next_u32();
    }
    // One word of this generation is left; a 64-bit read must not split
    // itself across the regeneration.
    assert_eq!(g.cursor(), n32 - 1);
    let v = g.next_u64();
    assert_eq!(g.cursor(), 2);
    let lo = g.state_word(0);
    let hi = g.state_word(1);
    assert_eq!(v, (lo as u64) | ((hi as u64) << 32));
}

#[test]
fn clone_independence() {
    let mut g = SFMT::from_seed(Mexp::M1279, 4321u32.to_le_bytes());
    for _ in 0..137 {
        g.next_u32();
    }
    let mut h = g.clone();
    for i in 0..1000 {
        if i % 5 == 0 {
            assert_eq!(g.next_u64(), h.next_u64());
        } else {
            assert_eq!(g.next_u32(), h.next_u32());
        }
    }
}

#[test]
fn period_certification_flips_exactly_one_bit() {
    // For M607 the raw expansion of seed 2 fails the parity check, and
    // the expansion of seed 0 passes it.
    let p = Mexp::M607.params();
    let pty = [p.pty0, p.pty1, p.pty2, p.pty3];

    let raw = expansion_words(2, 8);
    assert_eq!(parity([raw[0], raw[1], raw[2], raw[3]], pty), 0);
    let g = SFMT::from_seed(Mexp::M607, 2u32.to_le_bytes());
    assert_eq!(g.state_word(0), raw[0] ^ 1);
    for i in 1..8 {
        assert_eq!(g.state_word(i), raw[i]);
    }
    let now = [g.state_word(0), g.state_word(1), g.state_word(2), g.state_word(3)];
    assert_eq!(parity(now, pty), 1);

    let raw = expansion_words(0, 8);
    assert_eq!(parity([raw[0], raw[1], raw[2], raw[3]], pty), 1);
    let g = SFMT::from_seed(Mexp::M607, 0u32.to_le_bytes());
    for i in 0..8 {
        assert_eq!(g.state_word(i), raw[i]);
    }
}

#[test]
fn fill_bytes_matches_word_reads() {
    for len in [0usize, 1, 3, 4, 5, 7, 8, 13, 16, 27] {
        let seed = 99u32.to_le_bytes();
        let mut g = SFMT::from_seed(Mexp::M2281, seed);
        let mut buf = vec![0u8; len];
        g.fill_bytes(&mut buf);
        assert_eq!(buf.len(), len);

        let mut h = SFMT::from_seed(Mexp::M2281, seed);
        let mut expected = Vec::new();
        while len - expected.len() >= 8 {
            expected.extend_from_slice(&h.next_u64().to_le_bytes());
        }
        let rem = len - expected.len();
        if rem > 4 {
            expected.extend_from_slice(&h.next_u64().to_le_bytes()[..rem]);
        } else if rem > 0 {
            expected.extend_from_slice(&h.next_u32().to_le_bytes()[..rem]);
        }
        assert_eq!(buf, expected);
        // Both readers end in the same position.
        assert_eq!(g.cursor(), h.cursor());
        assert_eq!(g.next_u32(), h.next_u32());
    }
}

#[test]
fn try_fill_bytes_is_ok() {
    let mut g = SFMT::from_seed(Mexp::M607, 1u32.to_le_bytes());
    let mut buf = vec![0u8; 11];
    assert!(g.try_fill_bytes(&mut buf).is_ok());
    let mut h = SFMT::from_seed(Mexp::M607, 1u32.to_le_bytes());
    let mut buf2 = vec![0u8; 11];
    h.fill_bytes(&mut buf2);
    assert_eq!(buf, buf2);
}

#[test]
fn from_exponent_accepts_the_ten_sizes() {
    for (e, m) in [
        (607usize, Mexp::M607),
        (1279, Mexp::M1279),
        (2281, Mexp::M2281),
        (4253, Mexp::M4253),
        (11213, Mexp::M11213),
        (19937, Mexp::M19937),
        (44497, Mexp::M44497),
        (86243, Mexp::M86243),
        (132049, Mexp::M132049),
        (216091, Mexp::M216091),
    ] {
        assert_eq!(Mexp::from_exponent(e), Some(m));
        assert_eq!(m.exponent(), e);
    }
}

#[test]
fn from_exponent_rejects_other_sizes() {
    for e in [0usize, 1, 127, 608, 19936, 19938, 216092, 1000000] {
        assert!(Mexp::from_exponent(e).is_none());
    }
}
