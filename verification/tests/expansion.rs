use mirletis::{xof, hash, gen_matrix_a, gen_secret_from_seed, encaps_from_seed, MirPubkey};

#[test]
fn test_xof_deterministic_and_domain_separated() {
    let data = vec![1u8, 2, 3, 4];
    let a = xof(64, &data, 0x00);
    let b = xof(64, &data, 0x00);
    assert_eq!(a, b);
    assert_eq!(a.len(), 64);
    let c = xof(64, &data, 0x01);
    assert_ne!(a, c);
    let d = xof(64, &data, 0x02);
    assert_ne!(a, d);
    assert_ne!(c, d);
    // A different message under the same tag also changes the stream.
    let e = xof(64, &[1u8, 2, 3, 5], 0x00);
    assert_ne!(a, e);
}

#[test]
fn test_hash_deterministic_and_domain_separated() {
    let data = vec![9u8; 17];
    let a = hash(&data, 0x02);
    let b = hash(&data, 0x02);
    assert_eq!(a, b);
    assert_eq!(a.len(), 32);
    let c = hash(&data, 0x00);
    assert_ne!(a, c);
}

#[test]
fn test_expanders_deterministic() {
    let seed = vec![0x42u8; 32];
    let m1 = gen_matrix_a(&seed);
    let m2 = gen_matrix_a(&seed);
    assert_eq!(m1, m2);
    assert_eq!(m1.len(), 5 * 5 * 256);
    let s1 = gen_secret_from_seed(&seed, 5 * 256);
    let s2 = gen_secret_from_seed(&seed, 5 * 256);
    assert_eq!(s1, s2);
    assert_eq!(s1.len(), 5 * 256);
    let other = vec![0x43u8; 32];
    assert_ne!(gen_matrix_a(&other), m1);
    assert_ne!(gen_secret_from_seed(&other, 5 * 256), s1);
}

#[test]
fn test_matrix_coefficients_in_range() {
    let seed = vec![0u8; 32];
    let m = gen_matrix_a(&seed);
    for &c in &m {
        assert!((0..=0x1FFF).contains(&(c as i32)));
    }
}

#[test]
fn test_secret_coefficients_ternary() {
    let seed = vec![7u8; 32];
    let s = gen_secret_from_seed(&seed, 1280);
    for &c in &s {
        assert!((-1..=1).contains(&c));
    }
    // The expansion map matches the ternary sampler byte for byte.
    let stream = xof(1280, &seed, 0x01);
    for i in 0..1280 {
        assert_eq!(s[i], mirletis::ternary(stream[i]));
    }
}

#[test]
fn test_matrix_expansion_golden() {
    let seed = vec![0u8; 32];
    let m = gen_matrix_a(&seed);
    let expected: [i16; 16] = [
        8128, 460, 5863, 1801, 7003, 2968, 7316, 1656, 6744, 3831, 5686, 6846, 5573, 5871, 5596,
        6700,
    ];
    assert_eq!(&m[..16], &expected);
}

#[test]
fn test_linear_core_matches_direct_computation() {
    // Against an all-zero b, every inner product is zero: no coordinate is
    // safe, the mask is empty, and u must equal the direct component-wise
    // computation from the expanded matrix and noise vector.
    let pk = MirPubkey::default();
    let eph = vec![0u8; 32];
    let (ct, shared) = encaps_from_seed(&pk, &eph);
    assert_eq!(ct.cnt, 0);
    assert!(ct.mask.iter().all(|&b| b == 0));
    assert_eq!(shared.key, hash(&[], 0x02));

    let a = gen_matrix_a(&pk.seed);
    let r = gen_secret_from_seed(&eph, 1280);
    for i in 0..5usize {
        for j in 0..256usize {
            let mut acc: i32 = 0;
            for l in 0..5usize {
                let av = a[l * 1280 + i * 256 + j] as i32;
                let rv = r[l * 256 + j] as i32;
                acc = acc.wrapping_add(av.wrapping_mul(rv));
            }
            let expected = ((acc & 0x1FFF) >> 5) as u8;
            assert_eq!(ct.u[i * 256 + j], expected, "u at ({}, {})", i, j);
        }
    }
}
