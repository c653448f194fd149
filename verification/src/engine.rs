//! The GPU-class worker: one hardware compute round behind an opaque round
//! primitive, driven by a bounded polling loop with an explicit deadline and
//! an abort signal, plus the host-side re-validation of every round result.

use vstd::prelude::*;
use vstd::bytes::{spec_u64_from_le_bytes, u64_from_le_bytes};
use vstd::slice::{slice_subrange, slice_to_vec};
use vstd::array::array_as_slice;
use crate::codec::base58_of;
use crate::deriver::{derived_candidate, new_gpu_seed};
use crate::errors::VanityError;
use crate::target::TargetSpec;
use crate::token::CancellationToken;
use crate::worker::{try_seed, report_valid, WorkerKind, WorkerReport};

verus! {

/// What the host can ask of one compute device before sizing a round.
#[derive(Clone, Copy, Debug, PartialEq, Eq, Structural)]
pub struct DeviceLimits {
    pub max_threads_per_threadgroup: u64,
    pub recommended_max_working_set_size: u64,
}

/// Host-side sizing of one device's rounds: how many threads per group the
/// device allows and how many groups a round dispatches, derived from the
/// device's recommended working-set size with a 512 MiB floor at 256 KiB
/// per group.
#[derive(Debug)]
pub struct MetalContext {
    pub case_insensitive: bool,
    pub max_threads_per_threadgroup: u64,
    pub num_threadgroups: u64,
}

impl MetalContext {
    /// Size rounds for the device at hand. Fails with `DeviceUnavailable`
    /// exactly when no device was found; fatal to this device's driver
    /// thread only.
    pub fn new(case_insensitive: bool, device: Option<DeviceLimits>) -> (r: Result<
        MetalContext,
        VanityError,
    >)
        ensures
            match r {
                Ok(ctx) => {
                    &&& device is Some
                    &&& ctx.case_insensitive == case_insensitive
                    &&& ctx.max_threads_per_threadgroup
                        == device->Some_0.max_threads_per_threadgroup
                    &&& ctx.num_threadgroups == (if device->Some_0.recommended_max_working_set_size
                        > 536870912 {
                        device->Some_0.recommended_max_working_set_size
                    } else {
                        536870912u64
                    }) / 262144u64
                },
                Err(e) => device is None && e == VanityError::DeviceUnavailable,
            },
    {
        match device {
            None => Err(VanityError::DeviceUnavailable),
            Some(limits) => {
                let working_set: u64 = if limits.recommended_max_working_set_size > 536870912 {
                    limits.recommended_max_working_set_size
                } else {
                    536870912
                };
                Ok(
                    MetalContext {
                        case_insensitive,
                        max_threads_per_threadgroup: limits.max_threads_per_threadgroup,
                        num_threadgroups: working_set / 262144,
                    },
                )
            },
        }
    }
}

/// The black-box compute-round boundary: a backend uploads the fixed inputs,
/// dispatches one bounded batch of parallel trials, and exposes completion,
/// abort and result readback. Implementations must derive and encode
/// candidates exactly as the CPU path does; the engine does not rely on
/// that, because the host re-validates every result.
pub trait ComputeRoundPrimitive {
    /// Upload the seed, key material and target and begin one asynchronous
    /// round.
    fn commit_round(
        &mut self,
        seed: &Vec<u8>,
        base: &[u8; 32],
        owner: &[u8; 32],
        target: &Vec<u8>,
        case_insensitive: bool,
    );

    /// Poll the round's out-of-band "done" signal.
    fn poll_done(&mut self) -> bool;

    /// Wait one poll interval before polling again.
    fn wait(&mut self, poll_interval_millis: u64);

    /// Ask in-flight trial threads to terminate at their next abort check,
    /// without corrupting the result buffer.
    fn request_abort(&mut self);

    /// Read back the 24-byte result buffer: 16 bytes of seed material
    /// followed by an 8-byte little-endian trial count.
    fn read_result(&mut self) -> Vec<u8>;
}

/// What one completed round reports after host-side re-validation:
/// whether the re-derived candidate for the returned seed material really
/// matches the target, the 16 bytes of seed material, and the round's trial
/// count.
#[derive(Debug)]
pub struct RoundResult {
    pub matched: bool,
    pub seed_material: Vec<u8>,
    pub trial_count: u64,
}

/// Re-validate one raw 24-byte round buffer. The primitive is untrusted:
/// `matched` is decided here, by re-deriving the candidate from the returned
/// seed material with the exact CPU transform and re-evaluating the
/// predicate, never by believing the device.
pub fn evaluate_round(out: &Vec<u8>, base: &[u8; 32], owner: &[u8; 32], target: &TargetSpec) -> (r:
    RoundResult)
    requires
        out@.len() == 24,
    ensures
        r.seed_material@ == out@.subrange(0, 16),
        r.trial_count == spec_u64_from_le_bytes(out@.subrange(16, 24)),
        r.matched == target.spec_matches(
            base58_of(derived_candidate(base@, out@.subrange(0, 16), owner@)),
        ),
{
    let seed_material: Vec<u8> = slice_to_vec(slice_subrange(out.as_slice(), 0, 16));
    let trial_count: u64 = u64_from_le_bytes(slice_subrange(out.as_slice(), 16, 24));
    let matched = match try_seed(base, &seed_material, owner, target) {
        Some(_) => true,
        None => false,
    };
    RoundResult { matched, seed_material, trial_count }
}

/// Build the authoritative report for a validated round, or nothing when
/// the re-derived candidate does not match. Exactly mirrors the CPU
/// worker's report: the encoded text is re-derived from the seed material.
pub fn validate_gpu_result(
    gpu_id: u32,
    out: &Vec<u8>,
    base: &[u8; 32],
    owner: &[u8; 32],
    target: &TargetSpec,
) -> (r: Option<WorkerReport>)
    requires
        out@.len() == 24,
    ensures
        match r {
            Some(rep) => {
                &&& report_valid(rep, base@, owner@, *target)
                &&& rep.kind == WorkerKind::Gpu
                &&& rep.worker_id == gpu_id
                &&& rep.seed@ == out@.subrange(0, 16)
                &&& rep.trial_count == spec_u64_from_le_bytes(out@.subrange(16, 24))
            },
            None => !target.spec_matches(
                base58_of(derived_candidate(base@, out@.subrange(0, 16), owner@)),
            ),
        },
{
    let round = evaluate_round(out, base, owner, target);
    if !round.matched {
        return None;
    }
    match try_seed(base, &round.seed_material, owner, target) {
        Some(encoded) => Some(
            WorkerReport {
                worker_id: gpu_id,
                kind: WorkerKind::Gpu,
                seed: round.seed_material,
                encoded,
                trial_count: round.trial_count,
                elapsed_millis: 0,
            },
        ),
        None => None,
    }
}

/// The driver of one logical GPU: it runs bounded rounds against a round
/// primitive, polling completion up to an explicit deadline expressed as a
/// number of polls at a fixed interval (the defaults give the 30-second
/// round timeout at a 10-millisecond poll interval).
#[derive(Debug)]
pub struct GpuVanitySearch {
    pub max_polls: u64,
    pub poll_interval_millis: u64,
}

impl GpuVanitySearch {
    /// A driver with the default deadline: 3000 polls of 10 ms each, a
    /// 30-second round timeout.
    pub fn new() -> (r: GpuVanitySearch)
        ensures
            r.max_polls == 3000,
            r.poll_interval_millis == 10,
    {
        GpuVanitySearch { max_polls: 3000, poll_interval_millis: 10 }
    }

    /// Run one round. Commits the round, then polls completion; if the
    /// abort signal is observed, or the deadline of `max_polls` polls
    /// elapses, before the round signals done, the round is aborted and
    /// `RoundInterrupted` comes back instead of blocking indefinitely.
    /// On completion the raw 24-byte buffer is returned for re-validation;
    /// a buffer of any other size is treated as an interrupted round.
    pub fn vanity_round<P: ComputeRoundPrimitive>(
        &self,
        primitive: &mut P,
        seed: &Vec<u8>,
        base: &[u8; 32],
        owner: &[u8; 32],
        target: &Vec<u8>,
        case_insensitive: bool,
        abort: &CancellationToken,
    ) -> (r: Result<Vec<u8>, VanityError>)
        ensures
            match r {
                Ok(out) => out@.len() == 24,
                Err(e) => e == VanityError::RoundInterrupted,
            },
    {
        if abort.is_set() {
            return Err(VanityError::RoundInterrupted);
        }
        primitive.commit_round(seed, base, owner, target, case_insensitive);
        let mut polls: u64 = 0;
        while polls < self.max_polls
            invariant
                polls <= self.max_polls,
            decreases self.max_polls - polls,
        {
            if abort.is_set() {
                primitive.request_abort();
                return Err(VanityError::RoundInterrupted);
            }
            if primitive.poll_done() {
                let out = primitive.read_result();
                if out.len() == 24 {
                    return Ok(out);
                }
                primitive.request_abort();
                return Err(VanityError::RoundInterrupted);
            }
            primitive.wait(self.poll_interval_millis);
            polls = polls + 1;
        }
        primitive.request_abort();
        Err(VanityError::RoundInterrupted)
    }
}

/// One logical GPU's whole driving loop, bounded by a round budget (pass
/// `u64::MAX` for an effectively unbounded search). Each round: observe the
/// cancellation token and exit silently if it is set; mix fresh seed
/// material for this worker and round; run one bounded round against the
/// primitive; re-check the token; on a completed round, re-validate the
/// result with the CPU transform and race for the token, reporting only on
/// winning the compare-and-set. An interrupted round (timeout or abort) is
/// recoverable: the loop goes on unless the token is set. As for the CPU
/// worker, any report is re-derivable: its encoded text is the encoding of
/// the candidate derived from its seed material and matches the target.
pub fn gpu_driver_run<P: ComputeRoundPrimitive>(
    gpu_id: u32,
    primitive: &mut P,
    engine: &GpuVanitySearch,
    base: &[u8; 32],
    owner: &[u8; 32],
    target: &TargetSpec,
    token: &CancellationToken,
    abort: &CancellationToken,
    max_rounds: u64,
) -> (r: Option<WorkerReport>)
    ensures
        match r {
            Some(rep) => {
                &&& report_valid(rep, base@, owner@, *target)
                &&& rep.kind == WorkerKind::Gpu
                &&& rep.worker_id == gpu_id
            },
            None => true,
        },
{
    let mut iteration: u64 = 0;
    while iteration < max_rounds
        invariant
            iteration <= max_rounds,
        decreases max_rounds - iteration,
    {
        if token.is_set() {
            return None;
        }
        let seed = new_gpu_seed(gpu_id, iteration);
        let seed_vec: Vec<u8> = slice_to_vec(array_as_slice(&seed));
        match engine.vanity_round(
            primitive,
            &seed_vec,
            base,
            owner,
            &target.normalized_prefix,
            target.case_insensitive,
            abort,
        ) {
            Ok(out) => {
                if token.is_set() {
                    return None;
                }
                match validate_gpu_result(gpu_id, &out, base, owner, target) {
                    Some(rep) => {
                        if token.try_set() {
                            return Some(rep);
                        }
                        return None;
                    },
                    None => {},
                }
            },
            Err(_) => {},
        }
        iteration = iteration + 1;
    }
    None
}

} // verus!
