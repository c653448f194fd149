//! CPU-class workers: tight trial loops that draw random seeds, derive and
//! encode candidates, evaluate the match predicate, and race for the
//! cancellation token.

use vstd::prelude::*;
use crate::codec::{base58_of, encode};
use crate::deriver::{derived_candidate, sample_cpu_seed};
use crate::target::TargetSpec;
use crate::token::CancellationToken;

verus! {

/// Which execution class produced a report.
#[derive(Clone, Copy, Debug, PartialEq, Eq, Structural)]
pub enum WorkerKind {
    Cpu,
    Gpu,
}

/// What the winning worker hands to the coordinator. `elapsed_millis` is
/// wall-clock time measured by the caller that owns the clock; workers
/// themselves report zero.
#[derive(Debug)]
pub struct WorkerReport {
    pub worker_id: u32,
    pub kind: WorkerKind,
    pub seed: Vec<u8>,
    pub encoded: Vec<u8>,
    pub trial_count: u64,
    pub elapsed_millis: u64,
}

/// A report is valid for the run's key material and target when its encoded
/// text really is the encoding of the candidate derived from its seed, and
/// that text matches the target.
pub open spec fn report_valid(
    rep: WorkerReport,
    base: Seq<u8>,
    owner: Seq<u8>,
    target: TargetSpec,
) -> bool {
    &&& rep.seed@.len() == 16
    &&& rep.encoded@ == base58_of(derived_candidate(base, rep.seed@, owner))
    &&& target.spec_matches(rep.encoded@)
}

/// One trial: derive the candidate for `seed`, encode it, and evaluate the
/// predicate. Returns the encoded text exactly when it matches the target.
pub fn try_seed(base: &[u8; 32], seed: &Vec<u8>, owner: &[u8; 32], target: &TargetSpec) -> (r:
    Option<Vec<u8>>)
    ensures
        match r {
            Some(encoded) => {
                &&& encoded@ == base58_of(derived_candidate(base@, seed@, owner@))
                &&& target.spec_matches(encoded@)
            },
            None => !target.spec_matches(base58_of(derived_candidate(base@, seed@, owner@))),
        },
{
    let candidate = crate::deriver::derive(base, seed, owner);
    let encoded = encode(&candidate);
    if target.matches(&encoded) {
        Some(encoded)
    } else {
        None
    }
}

/// One CPU worker's whole run, bounded by a trial budget (pass `u64::MAX`
/// for an effectively unbounded search). Each iteration first observes the
/// cancellation token and terminates silently if it is set; otherwise it
/// draws a fresh random 16-byte seed and runs one trial. On a match the
/// worker races for the token; only the winner of the compare-and-set
/// returns a report, and that report is re-derivable: its encoded text is
/// the encoding of the candidate derived from its seed and matches the
/// target.
pub fn cpu_worker_run(
    worker_id: u32,
    base: &[u8; 32],
    owner: &[u8; 32],
    target: &TargetSpec,
    token: &CancellationToken,
    max_trials: u64,
) -> (r: Option<WorkerReport>)
    ensures
        match r {
            Some(rep) => {
                &&& report_valid(rep, base@, owner@, *target)
                &&& rep.kind == WorkerKind::Cpu
                &&& rep.worker_id == worker_id
            },
            None => true,
        },
{
    let mut count: u64 = 0;
    while count < max_trials
        invariant
            count <= max_trials,
        decreases max_trials - count,
    {
        if token.is_set() {
            return None;
        }
        let seed = sample_cpu_seed();
        count = count + 1;
        match try_seed(base, &seed, owner, target) {
            Some(encoded) => {
                if token.try_set() {
                    return Some(
                        WorkerReport {
                            worker_id,
                            kind: WorkerKind::Cpu,
                            seed,
                            encoded,
                            trial_count: count,
                            elapsed_millis: 0,
                        },
                    );
                } else {
                    return None;
                }
            },
            None => {},
        }
    }
    None
}

} // verus!
