use sha2::{Digest, Sha256};
use vanity::deriver::{gpu_seed_from_nonce, new_gpu_seed};
use vanity::deriver::derive as derive_candidate_bytes;

#[test]
fn derive_is_deterministic() {
    let base = [1u8; 32];
    let owner = [2u8; 32];
    let seed: Vec<u8> = b"0123456789abcdef".to_vec();
    let a = derive_candidate_bytes(&base, &seed, &owner);
    let b = derive_candidate_bytes(&base, &seed, &owner);
    assert_eq!(a, b);
}

#[test]
fn derive_agrees_with_a_direct_sha256_of_the_concatenation() {
    let base = [3u8; 32];
    let owner = [9u8; 32];
    let seed: Vec<u8> = b"fedcba9876543210".to_vec();
    let ours = derive_candidate_bytes(&base, &seed, &owner);
    let theirs: [u8; 32] = Sha256::new()
        .chain_update(base)
        .chain_update(&seed)
        .chain_update(owner)
        .finalize()
        .into();
    assert_eq!(ours, theirs);
}

#[test]
fn derive_depends_on_every_part() {
    let base = [1u8; 32];
    let owner = [2u8; 32];
    let seed: Vec<u8> = b"0123456789abcdef".to_vec();
    let reference = derive_candidate_bytes(&base, &seed, &owner);
    assert_ne!(derive_candidate_bytes(&[7u8; 32], &seed, &owner), reference);
    assert_ne!(derive_candidate_bytes(&base, &b"x123456789abcdef".to_vec(), &owner), reference);
    assert_ne!(derive_candidate_bytes(&base, &seed, &[7u8; 32]), reference);
    assert_ne!(reference, [0u8; 32]);
}

#[test]
fn gpu_seed_mixes_nonce_id_and_iteration() {
    let nonce = [5u8; 32];
    let a = gpu_seed_from_nonce(&nonce, 0, 0);
    let b = gpu_seed_from_nonce(&nonce, 0, 0);
    assert_eq!(a, b);
    assert_ne!(gpu_seed_from_nonce(&nonce, 1, 0), a);
    assert_ne!(gpu_seed_from_nonce(&nonce, 0, 1), a);

    let direct: [u8; 32] = Sha256::new()
        .chain_update(nonce)
        .chain_update(0u32.to_le_bytes())
        .chain_update(0u64.to_le_bytes())
        .finalize()
        .into();
    assert_eq!(a, direct);
}

#[test]
fn fresh_gpu_seeds_differ_between_draws() {
    let a = new_gpu_seed(0, 0);
    let b = new_gpu_seed(0, 0);
    assert_ne!(a, b);
}
