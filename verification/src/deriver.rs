//! Candidate derivation: the fixed one-way transform from key material and a
//! seed to a 32-byte candidate, and the seed-material generators for the two
//! worker classes.

use vstd::prelude::*;
use vstd::bytes::{spec_u32_to_le_bytes, spec_u64_to_le_bytes, u32_to_le_bytes, u64_to_le_bytes};
use vstd::slice::slice_to_vec;
use vstd::array::array_as_slice;
use sha2::Digest;
use rand::Rng;

verus! {

/// The 32-byte SHA-256 digest of `data`, named abstractly: the digest is a
/// function of the input bytes alone, identical on every worker and machine.
pub uninterp spec fn sha256_of(data: Seq<u8>) -> Seq<u8>;

/// The candidate bytes derived from fixed key material and one seed:
/// SHA-256 over the concatenation `base || seed || owner`.
pub open spec fn derived_candidate(base: Seq<u8>, seed: Seq<u8>, owner: Seq<u8>) -> Seq<u8> {
    sha256_of(base + seed + owner)
}

/// True of the bytes the CPU seed sampler may produce: ASCII digits and
/// letters.
pub open spec fn is_alphanumeric_byte(b: u8) -> bool {
    (48 <= b && b <= 57) || (65 <= b && b <= 90) || (97 <= b && b <= 122)
}

/// Relies on sha2's `Sha256` through `Digest::digest`: a 32-byte digest
/// determined by the input bytes alone.
#[verifier::external_body]
fn sha256(data: &Vec<u8>) -> (r: [u8; 32])
    ensures
        r@ == sha256_of(data@),
{
    sha2::Sha256::digest(data.as_slice()).into()
}

/// Relies on rand's `thread_rng` sampling the `Alphanumeric` distribution,
/// which draws uniformly from the ASCII digits and letters; the values are
/// random, so nothing beyond length and alphabet is promised.
#[verifier::external_body]
pub(crate) fn sample_cpu_seed() -> (r: Vec<u8>)
    ensures
        r@.len() == 16,
        forall|i: int| 0 <= i < r@.len() ==> is_alphanumeric_byte(r@[i]),
{
    rand::thread_rng().sample_iter(&rand::distributions::Alphanumeric).take(16).collect()
}

/// Relies on `rand::random` for a fresh 32-byte nonce; the value is random,
/// so nothing is promised of it.
#[verifier::external_body]
fn sample_gpu_nonce() -> (r: [u8; 32]) {
    rand::random::<[u8; 32]>()
}

/// Derive the candidate for one trial: SHA-256 over `base || seed || owner`.
/// Deterministic; both worker classes must use exactly this transform, and
/// the coordinator re-checks every reported match with it.
pub fn derive(base: &[u8; 32], seed: &Vec<u8>, owner: &[u8; 32]) -> (r: [u8; 32])
    ensures
        r@ == derived_candidate(base@, seed@, owner@),
{
    let mut data: Vec<u8> = Vec::new();
    let mut part: Vec<u8> = slice_to_vec(array_as_slice(base));
    data.append(&mut part);
    let mut part: Vec<u8> = slice_to_vec(seed.as_slice());
    data.append(&mut part);
    let mut part: Vec<u8> = slice_to_vec(array_as_slice(owner));
    data.append(&mut part);
    proof {
        assert(data@ =~= base@ + seed@ + owner@);
    }
    sha256(&data)
}

/// The seed material a GPU round starts from: SHA-256 over a fresh nonce,
/// the worker index and the round-iteration counter, so that rounds use
/// distinct seed material without coordinating.
pub open spec fn gpu_seed_of(nonce: Seq<u8>, gpu_id: u32, iteration: u64) -> Seq<u8> {
    sha256_of(nonce + spec_u32_to_le_bytes(gpu_id) + spec_u64_to_le_bytes(iteration))
}

/// Mix a given nonce with the worker index and round counter into one
/// 32-byte GPU seed. Deterministic in its arguments.
pub fn gpu_seed_from_nonce(nonce: &[u8; 32], gpu_id: u32, iteration: u64) -> (r: [u8; 32])
    ensures
        r@ == gpu_seed_of(nonce@, gpu_id, iteration),
{
    let mut data: Vec<u8> = slice_to_vec(array_as_slice(nonce));
    let mut part: Vec<u8> = u32_to_le_bytes(gpu_id);
    data.append(&mut part);
    let mut part: Vec<u8> = u64_to_le_bytes(iteration);
    data.append(&mut part);
    proof {
        assert(data@ =~= nonce@ + spec_u32_to_le_bytes(gpu_id) + spec_u64_to_le_bytes(
            iteration,
        ));
    }
    sha256(&data)
}

/// Fresh seed material for one GPU round: a random nonce mixed with the
/// worker index and round counter.
pub fn new_gpu_seed(gpu_id: u32, iteration: u64) -> (r: [u8; 32])
    ensures
        exists|nonce: Seq<u8>|
            nonce.len() == 32 && r@ == gpu_seed_of(nonce, gpu_id, iteration),
{
    let nonce = sample_gpu_nonce();
    let r = gpu_seed_from_nonce(&nonce, gpu_id, iteration);
    proof {
        assert(nonce@.len() == 32 && r@ == gpu_seed_of(nonce@, gpu_id, iteration));
    }
    r
}

/// Determinism of the derivation transform: identical key material and seed
/// bytes always derive byte-identical candidates, across workers and runs.
pub proof fn lemma_derive_deterministic(
    base1: Seq<u8>,
    seed1: Seq<u8>,
    owner1: Seq<u8>,
    base2: Seq<u8>,
    seed2: Seq<u8>,
    owner2: Seq<u8>,
)
    requires
        base1 == base2,
        seed1 == seed2,
        owner1 == owner2,
    ensures
        derived_candidate(base1, seed1, owner1) == derived_candidate(base2, seed2, owner2),
{
}

} // verus!
