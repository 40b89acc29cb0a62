use creditra_credit::scoring::derive_score_from_hash;

#[test]
fn test_derive_score_from_hash_deterministic() {
    let hash1 = [0u8; 32];
    let hash2 = [1u8; 32];

    let score1 = derive_score_from_hash(&hash1);
    let score2 = derive_score_from_hash(&hash2);

    // Same hash should produce same score
    assert_eq!(derive_score_from_hash(&hash1), score1);
    assert_eq!(derive_score_from_hash(&hash2), score2);

    // Different hashes should (likely) produce different scores
    assert_ne!(score1, score2);
}

#[test]
fn test_derive_score_from_hash_range() {
    let hash_zero = [0u8; 32];
    let hash_max = [255u8; 32];
    let hash_mixed: [u8; 32] = [
        1, 2, 3, 4, 5, 6, 7, 8, 9, 10, 11, 12, 13, 14, 15, 16, 17, 18, 19, 20, 21, 22, 23, 24, 25, 26, 27, 28, 29, 30,
        31, 32,
    ];

    let score_zero = derive_score_from_hash(&hash_zero);
    let score_max = derive_score_from_hash(&hash_max);
    let score_mixed = derive_score_from_hash(&hash_mixed);

    // All scores should be in range [0, 100]
    assert!(score_zero <= 100);
    assert!(score_max <= 100);
    assert!(score_mixed <= 100);
}

#[test]
fn test_derive_score_from_hash_distribution() {
    // Test that the distribution covers the range
    let mut scores = std::collections::HashSet::new();
    for i in 0u32..100 {
        let mut bytes = [0u8; 32];
        bytes[0] = i as u8;
        let score = derive_score_from_hash(&bytes);
        scores.insert(score);
    }

    // Should have good coverage (at least 50 distinct scores out of 101 possible)
    assert!(scores.len() >= 50);
}

#[test]
fn derive_score_is_byte_sum_mod_101() {
    // 32 × 255 = 8160 = 80 × 101 + 80
    assert_eq!(derive_score_from_hash(&[255u8; 32]), 80);
    // 1 + 2 + … + 32 = 528 = 5 × 101 + 23
    let mut h = [0u8; 32];
    for i in 0..32 {
        h[i] = (i + 1) as u8;
    }
    assert_eq!(derive_score_from_hash(&h), 23);
    assert_eq!(derive_score_from_hash(&[0u8; 32]), 0);
}
