use creditra_credit::attestation::{bytes32_le, compute_root, hash_pair};
use creditra_credit::types::ContractError;
use creditra_credit::Credit;
use soroban_sdk::{Bytes, Env};

const CONTRACT: u64 = 1;
const ADMIN: u64 = 2;
const BORROWER: u64 = 3;

fn leaf(env: &Env, pattern: u8) -> [u8; 32] {
    env.crypto().sha256(&Bytes::from_slice(env, &[pattern])).to_array()
}

fn two_leaf_root(env: &Env, l0: [u8; 32], l1: [u8; 32]) -> [u8; 32] {
    hash_pair(env, &l0, &l1)
}

fn setup_admin() -> Credit {
    let mut c = Credit::new(CONTRACT);
    c.init(ADMIN).unwrap();
    c
}

// ── compute_root ─────────────────────────────────────────────────────────────

#[test]
fn compute_root_single_leaf_empty_proof() {
    let env = Env::default();
    let l = leaf(&env, 0xAB);
    let root = compute_root(&env, l, &vec![]);
    assert_eq!(root, l);
}

#[test]
fn compute_root_two_leaves_correct() {
    let env = Env::default();
    let l0 = leaf(&env, 0x01);
    let l1 = leaf(&env, 0x02);
    let expected_root = two_leaf_root(&env, l0, l1);

    let root = compute_root(&env, l0, &vec![l1]);
    assert_eq!(root, expected_root);
}

#[test]
fn compute_root_sorted_pair_commutative() {
    let env = Env::default();
    let l0 = leaf(&env, 0x01);
    let l1 = leaf(&env, 0x02);

    let root_from_l0 = compute_root(&env, l0, &vec![l1]);
    let root_from_l1 = compute_root(&env, l1, &vec![l0]);
    assert_eq!(root_from_l0, root_from_l1);
}

#[test]
fn compute_root_four_leaves() {
    let env = Env::default();
    let l0 = leaf(&env, 0x00);
    let l1 = leaf(&env, 0x01);
    let l2 = leaf(&env, 0x02);
    let l3 = leaf(&env, 0x03);

    let n01 = two_leaf_root(&env, l0, l1);
    let n23 = two_leaf_root(&env, l2, l3);
    let expected_root = two_leaf_root(&env, n01, n23);

    let root = compute_root(&env, l0, &vec![l1, n23]);
    assert_eq!(root, expected_root);

    let root2 = compute_root(&env, l2, &vec![l3, n01]);
    assert_eq!(root2, expected_root);
}

// ── commit / get / clear ─────────────────────────────────────────────────────

#[test]
fn commit_and_get_attestation_batch() {
    let env = Env::default();
    let mut c = setup_admin();
    let root = leaf(&env, 0xAA);

    c.commit_attestation_batch(ADMIN, BORROWER, root, 3, 0).unwrap();

    let batch = c.get_attestation_batch(BORROWER).expect("batch should exist");
    assert_eq!(batch.merkle_root, root);
    assert_eq!(batch.count, 3);
}

#[test]
fn commit_overwrites_previous_batch() {
    let env = Env::default();
    let mut c = setup_admin();
    let root1 = leaf(&env, 0x11);
    let root2 = leaf(&env, 0x22);

    c.commit_attestation_batch(ADMIN, BORROWER, root1, 1, 0).unwrap();
    c.commit_attestation_batch(ADMIN, BORROWER, root2, 2, 0).unwrap();

    let batch = c.get_attestation_batch(BORROWER).expect("batch should exist");
    assert_eq!(batch.merkle_root, root2);
    assert_eq!(batch.count, 2);
}

#[test]
fn clear_attestation_batch_removes_entry() {
    let env = Env::default();
    let mut c = setup_admin();
    c.commit_attestation_batch(ADMIN, BORROWER, leaf(&env, 0xBB), 1, 0).unwrap();
    c.clear_attestation_batch(ADMIN, BORROWER).unwrap();

    assert!(c.get_attestation_batch(BORROWER).is_none());
}

#[test]
fn get_nonexistent_batch_returns_none() {
    let c = Credit::new(CONTRACT);
    assert!(c.get_attestation_batch(BORROWER).is_none());
}

// ── verify_attestation_proof ─────────────────────────────────────────────────

#[test]
fn verify_single_leaf_batch() {
    let env = Env::default();
    let mut c = setup_admin();
    let l = leaf(&env, 0xCC);

    c.commit_attestation_batch(ADMIN, BORROWER, l, 1, 0).unwrap();

    assert!(c.verify_attestation_proof(&env, BORROWER, l, &vec![]).unwrap());
}

#[test]
fn verify_two_leaf_batch_both_leaves() {
    let env = Env::default();
    let mut c = setup_admin();
    let l0 = leaf(&env, 0x01);
    let l1 = leaf(&env, 0x02);
    let root = two_leaf_root(&env, l0, l1);

    c.commit_attestation_batch(ADMIN, BORROWER, root, 2, 0).unwrap();

    assert!(c.verify_attestation_proof(&env, BORROWER, l0, &vec![l1]).unwrap());
    assert!(c.verify_attestation_proof(&env, BORROWER, l1, &vec![l0]).unwrap());
}

#[test]
fn verify_wrong_leaf_returns_false() {
    let env = Env::default();
    let mut c = setup_admin();
    let l0 = leaf(&env, 0x01);
    let l1 = leaf(&env, 0x02);
    let wrong_leaf = leaf(&env, 0xFF);
    let root = two_leaf_root(&env, l0, l1);

    c.commit_attestation_batch(ADMIN, BORROWER, root, 2, 0).unwrap();

    assert!(!c.verify_attestation_proof(&env, BORROWER, wrong_leaf, &vec![l1]).unwrap());
}

#[test]
fn verify_no_batch_is_invalid_attestation() {
    let env = Env::default();
    let c = Credit::new(CONTRACT);
    let l = leaf(&env, 0xDD);
    assert_eq!(c.verify_attestation_proof(&env, BORROWER, l, &vec![]), Err(ContractError::InvalidAttestation));
}

// ── hashing details ──────────────────────────────────────────────────────────

#[test]
fn hash_pair_is_sha256_of_prefixed_sorted_pair() {
    let env = Env::default();
    let lo = [1u8; 32];
    let hi = [2u8; 32];
    let mut buf = vec![1u8];
    buf.extend_from_slice(&lo);
    buf.extend_from_slice(&hi);
    let expected = env.crypto().sha256(&Bytes::from_slice(&env, &buf)).to_array();
    assert_eq!(hash_pair(&env, &hi, &lo), expected);
    assert_eq!(hash_pair(&env, &lo, &hi), expected);
    assert_ne!(expected, lo);
}

#[test]
fn bytes32_le_is_lexicographic() {
    let mut a = [0u8; 32];
    let mut b = [0u8; 32];
    assert!(bytes32_le(&a, &b));
    a[5] = 1;
    assert!(!bytes32_le(&a, &b));
    assert!(bytes32_le(&b, &a));
    b[4] = 1;
    assert!(bytes32_le(&a, &b));
}

#[test]
fn attestation_admin_gates() {
    let env = Env::default();
    let mut c = setup_admin();
    assert_eq!(c.commit_attestation_batch(9, BORROWER, leaf(&env, 1), 1, 0), Err(ContractError::Unauthorized));
    c.set_protocol_paused(ADMIN, true).unwrap();
    assert_eq!(c.commit_attestation_batch(ADMIN, BORROWER, leaf(&env, 1), 1, 0), Err(ContractError::Paused));
    assert_eq!(c.clear_attestation_batch(ADMIN, BORROWER), Err(ContractError::Paused));
}
