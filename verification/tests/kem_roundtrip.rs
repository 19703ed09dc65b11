use mirletis::{keygen, encaps, decaps, self_test, MirCiphertext, MirSecretVault};

#[test]
fn test_correctness() {
    assert!(self_test(), "Key exchange failed");
}

#[test]
fn test_stress_repeat() {
    for _ in 0..100 {
        assert!(self_test());
    }
}

#[test]
fn test_roundtrip_keys_equal() {
    let (pk, vault) = keygen();
    let (ct, key_bob) = encaps(&pk);
    let key_alice = decaps(&ct, &vault);
    assert_eq!(key_alice.key, key_bob.key);
    assert_eq!(key_bob.key.len(), 32);
}

#[test]
fn test_mask_population_count() {
    let (pk, _vault) = keygen();
    for _ in 0..10 {
        let (ct, _key) = encaps(&pk);
        let popcount: u32 = ct.mask.iter().map(|b| b.count_ones()).sum();
        assert_eq!(ct.cnt as u32, popcount);
        assert!(ct.cnt as usize <= 256);
    }
}

#[test]
fn test_independence() {
    let (pk1, _v1) = keygen();
    let (pk2, _v2) = keygen();
    assert_ne!(pk1.seed, pk2.seed);

    let (ct1, k1) = encaps(&pk1);
    let (ct2, k2) = encaps(&pk1);
    assert!(ct1.u != ct2.u || ct1.mask != ct2.mask);
    assert_ne!(k1.key, k2.key);
}

#[test]
fn test_tampered_mask_changes_key() {
    let (pk, vault) = keygen();
    let (ct, key_bob) = encaps(&pk);
    for bit in 0..256usize {
        let mut mask = ct.mask.clone();
        mask[bit >> 3] ^= 1u8 << (bit & 7);
        let tampered = MirCiphertext { u: ct.u.clone(), mask, cnt: ct.cnt };
        let key_alice = decaps(&tampered, &vault);
        assert_ne!(key_alice.key, key_bob.key, "flip of mask bit {} went unnoticed", bit);
    }
}

#[test]
fn test_vault_scoped_access() {
    let mut coeffs = vec![0i16; 1280];
    coeffs[0] = -1;
    coeffs[1] = 1;
    coeffs[1279] = 1;
    let vault = MirSecretVault::new(coeffs);
    let (first, second, last, len) = vault.access(|s: &Vec<i16>| (s[0], s[1], s[1279], s.len()));
    assert_eq!(first, -1);
    assert_eq!(second, 1);
    assert_eq!(last, 1);
    assert_eq!(len, 1280);
    // The vault can be read more than once; each access sees the same data.
    let again = vault.access(|s: &Vec<i16>| s[0]);
    assert_eq!(again, -1);
}
