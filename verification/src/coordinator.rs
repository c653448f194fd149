//! The run's top level, minus thread plumbing: resolving the worker count,
//! replaying a fixed list of seeds, and selecting the single authoritative
//! report.

use vstd::prelude::*;
use crate::codec::base58_of;
use crate::deriver::derived_candidate;
use crate::target::TargetSpec;
use crate::worker::{try_seed, WorkerReport};

verus! {

/// Relies on rayon's `current_num_threads` for the detected degree of
/// hardware parallelism; the value depends on the machine, so nothing is
/// promised of it.
#[verifier::external_body]
fn detected_parallelism() -> (r: usize) {
    rayon::current_num_threads()
}

/// Resolve the worker count: an explicit non-zero request is kept as it is;
/// zero (unset) becomes the detected hardware parallelism, and is never
/// left zero.
pub fn maybe_update_num_cpus(num_cpus: &mut u32)
    ensures
        *old(num_cpus) != 0 ==> *final(num_cpus) == *old(num_cpus),
        *final(num_cpus) >= 1,
{
    if *num_cpus == 0 {
        let detected = detected_parallelism();
        let clamped: u32 = if detected >= (u32::MAX as usize) {
            u32::MAX
        } else {
            detected as u32
        };
        *num_cpus = if clamped == 0 {
            1
        } else {
            clamped
        };
    }
}

/// Try the given seeds in order against the target and return the index and
/// encoded text of the first that matches; nothing exactly when none does.
pub fn search_seed_list(
    base: &[u8; 32],
    owner: &[u8; 32],
    target: &TargetSpec,
    seeds: &Vec<Vec<u8>>,
) -> (r: Option<(usize, Vec<u8>)>)
    ensures
        match r {
            Some(found) => {
                &&& 0 <= found.0 < seeds@.len()
                &&& found.1@ == base58_of(
                    derived_candidate(base@, seeds@[found.0 as int]@, owner@),
                )
                &&& target.spec_matches(found.1@)
                &&& forall|j: int|
                    0 <= j < found.0 ==> !target.spec_matches(
                        base58_of(derived_candidate(base@, #[trigger] seeds@[j]@, owner@)),
                    )
            },
            None => forall|j: int|
                0 <= j < seeds@.len() ==> !target.spec_matches(
                    base58_of(derived_candidate(base@, #[trigger] seeds@[j]@, owner@)),
                ),
        },
{
    let mut i: usize = 0;
    while i < seeds.len()
        invariant
            i <= seeds@.len(),
            forall|j: int|
                0 <= j < i ==> !target.spec_matches(
                    base58_of(derived_candidate(base@, #[trigger] seeds@[j]@, owner@)),
                ),
        decreases seeds@.len() - i,
    {
        match try_seed(base, &seeds[i], owner, target) {
            Some(encoded) => {
                return Some((i, encoded));
            },
            None => {},
        }
        i += 1;
    }
    None
}

/// Pick the authoritative report out of the workers' results: the one
/// report of the worker that won the cancellation token (at most one worker
/// returns a report). The result is one of the inputs, and nothing comes
/// back exactly when no worker reported.
pub fn select_report(reports: Vec<Option<WorkerReport>>) -> (r: Option<WorkerReport>)
    ensures
        match r {
            Some(rep) => exists|i: int|
                0 <= i < reports@.len() && reports@[i] == Some(rep),
            None => forall|i: int| 0 <= i < reports@.len() ==> reports@[i] is None,
        },
{
    let ghost all = reports@;
    let mut rest = reports;
    let mut r: Option<WorkerReport> = None;
    while rest.len() > 0
        invariant
            rest@.len() <= all.len(),
            rest@ == all.subrange(0, rest@.len() as int),
            match r {
                Some(rep) => exists|i: int|
                    rest@.len() <= i < all.len() && all[i] == Some(rep),
                None => forall|i: int| rest@.len() <= i < all.len() ==> all[i] is None,
            },
        decreases rest@.len(),
    {
        let ghost oldrest = rest@;
        let popped = rest.pop();
        proof {
            assert(rest@ =~= all.subrange(0, rest@.len() as int));
            assert(all[rest@.len() as int] == oldrest[oldrest.len() - 1]);
        }
        match popped {
            Some(Some(rep)) => {
                proof {
                    assert(all[rest@.len() as int] == Some(rep));
                }
                r = Some(rep);
            },
            _ => {},
        }
    }
    r
}

} // verus!
