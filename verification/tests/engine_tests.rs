use vanity::codec::encode;
use vanity::coordinator::maybe_update_num_cpus;
use vanity::deriver::derive as derive_candidate_bytes;
use vanity::engine::{
    evaluate_round, gpu_driver_run, validate_gpu_result, ComputeRoundPrimitive, DeviceLimits,
    GpuVanitySearch, MetalContext,
};
use vanity::errors::VanityError;
use vanity::target::TargetSpec;
use vanity::token::CancellationToken;
use vanity::worker::WorkerKind;

struct StubPrimitive {
    committed: bool,
    polls: u64,
    waits: u64,
    aborted: bool,
    done_after: Option<u64>,
    result: Vec<u8>,
}

impl StubPrimitive {
    fn new(done_after: Option<u64>, result: Vec<u8>) -> StubPrimitive {
        StubPrimitive { committed: false, polls: 0, waits: 0, aborted: false, done_after, result }
    }
}

impl ComputeRoundPrimitive for StubPrimitive {
    fn commit_round(
        &mut self,
        _seed: &Vec<u8>,
        _base: &[u8; 32],
        _owner: &[u8; 32],
        _target: &Vec<u8>,
        _case_insensitive: bool,
    ) {
        self.committed = true;
    }

    fn poll_done(&mut self) -> bool {
        self.polls += 1;
        match self.done_after {
            Some(n) => self.polls > n,
            None => false,
        }
    }

    fn wait(&mut self, _poll_interval_millis: u64) {
        self.waits += 1;
    }

    fn request_abort(&mut self) {
        self.aborted = true;
    }

    fn read_result(&mut self) -> Vec<u8> {
        self.result.clone()
    }
}

fn round_buffer(seed: &[u8; 16], trials: u64) -> Vec<u8> {
    let mut out = seed.to_vec();
    out.extend_from_slice(&trials.to_le_bytes());
    out
}

#[test]
fn round_that_never_signals_done_times_out_with_interrupted() {
    let engine = GpuVanitySearch { max_polls: 5, poll_interval_millis: 0 };
    let mut stub = StubPrimitive::new(None, Vec::new());
    let abort = CancellationToken::new();
    let r = engine.vanity_round(
        &mut stub,
        &vec![0u8; 32],
        &[1u8; 32],
        &[2u8; 32],
        &b"ab".to_vec(),
        false,
        &abort,
    );
    assert_eq!(r.unwrap_err(), VanityError::RoundInterrupted);
    assert!(stub.committed);
    assert!(stub.aborted);
    assert_eq!(stub.polls, 5);
    assert_eq!(stub.waits, 5);
}

#[test]
fn completed_round_hands_back_the_raw_buffer() {
    let engine = GpuVanitySearch::new();
    assert_eq!(engine.max_polls, 3000);
    assert_eq!(engine.poll_interval_millis, 10);
    let buffer = round_buffer(b"0123456789abcdef", 77);
    let mut stub = StubPrimitive::new(Some(2), buffer.clone());
    let abort = CancellationToken::new();
    let r = engine.vanity_round(
        &mut stub,
        &vec![0u8; 32],
        &[1u8; 32],
        &[2u8; 32],
        &b"ab".to_vec(),
        false,
        &abort,
    );
    assert_eq!(r.unwrap(), buffer);
    assert!(!stub.aborted);
}

#[test]
fn preset_abort_interrupts_before_the_round_commits() {
    let engine = GpuVanitySearch::new();
    let mut stub = StubPrimitive::new(Some(0), round_buffer(&[0u8; 16], 1));
    let abort = CancellationToken::new();
    abort.set();
    let r = engine.vanity_round(
        &mut stub,
        &vec![0u8; 32],
        &[1u8; 32],
        &[2u8; 32],
        &b"ab".to_vec(),
        false,
        &abort,
    );
    assert_eq!(r.unwrap_err(), VanityError::RoundInterrupted);
    assert!(!stub.committed);
}

#[test]
fn malformed_result_buffer_counts_as_interrupted() {
    let engine = GpuVanitySearch::new();
    let mut stub = StubPrimitive::new(Some(0), vec![1u8; 23]);
    let abort = CancellationToken::new();
    let r = engine.vanity_round(
        &mut stub,
        &vec![0u8; 32],
        &[1u8; 32],
        &[2u8; 32],
        &b"ab".to_vec(),
        false,
        &abort,
    );
    assert_eq!(r.unwrap_err(), VanityError::RoundInterrupted);
    assert!(stub.aborted);
}

#[test]
fn round_evaluation_re_derives_and_parses_the_buffer() {
    let base = [1u8; 32];
    let owner = [2u8; 32];
    let seed16 = *b"0123456789abcdef";
    let encoded = encode(&derive_candidate_bytes(&base, &seed16.to_vec(), &owner));
    let prefix = encoded[..3].to_vec();
    let target = TargetSpec::new(prefix, false).unwrap();

    let out = round_buffer(&seed16, 12345);
    let round = evaluate_round(&out, &base, &owner, &target);
    assert!(round.matched);
    assert_eq!(round.seed_material, seed16.to_vec());
    assert_eq!(round.trial_count, 12345);

    let report = validate_gpu_result(2, &out, &base, &owner, &target).unwrap();
    assert_eq!(report.worker_id, 2);
    assert_eq!(report.kind, WorkerKind::Gpu);
    assert_eq!(report.seed, seed16.to_vec());
    assert_eq!(report.trial_count, 12345);
    assert_eq!(report.encoded, encoded);
}

#[test]
fn round_validation_discards_a_non_matching_claim() {
    let base = [1u8; 32];
    let owner = [2u8; 32];
    let seed16 = *b"0123456789abcdef";
    let encoded = encode(&derive_candidate_bytes(&base, &seed16.to_vec(), &owner));
    let mut wrong = encoded[..3].to_vec();
    wrong[0] = if wrong[0] == b'2' { b'3' } else { b'2' };
    let target = TargetSpec::new(wrong, false).unwrap();

    let out = round_buffer(&seed16, 5);
    let round = evaluate_round(&out, &base, &owner, &target);
    assert!(!round.matched);
    assert!(validate_gpu_result(0, &out, &base, &owner, &target).is_none());
}

#[test]
fn gpu_driver_reports_a_re_validated_match_and_sets_the_token() {
    let base = [1u8; 32];
    let owner = [2u8; 32];
    let seed16 = *b"0123456789abcdef";
    let encoded = encode(&derive_candidate_bytes(&base, &seed16.to_vec(), &owner));
    let prefix = encoded[..2].to_vec();
    let target = TargetSpec::new(prefix, false).unwrap();

    let engine = GpuVanitySearch { max_polls: 10, poll_interval_millis: 0 };
    let mut stub = StubPrimitive::new(Some(0), round_buffer(&seed16, 42));
    let token = CancellationToken::new();
    let abort = CancellationToken::new();
    let report =
        gpu_driver_run(5, &mut stub, &engine, &base, &owner, &target, &token, &abort, 8).unwrap();
    assert_eq!(report.worker_id, 5);
    assert_eq!(report.kind, WorkerKind::Gpu);
    assert_eq!(report.seed, seed16.to_vec());
    assert_eq!(report.trial_count, 42);
    assert_eq!(report.encoded, encoded);
    assert!(token.is_set());
    assert!(!abort.is_set());
}

#[test]
fn gpu_driver_survives_interrupted_rounds_and_respects_its_budget() {
    let target = TargetSpec::new(b"zz".to_vec(), false).unwrap();
    let engine = GpuVanitySearch { max_polls: 2, poll_interval_millis: 0 };
    let mut stub = StubPrimitive::new(None, Vec::new());
    let token = CancellationToken::new();
    let abort = CancellationToken::new();
    let r = gpu_driver_run(
        0,
        &mut stub,
        &engine,
        &[1u8; 32],
        &[2u8; 32],
        &target,
        &token,
        &abort,
        3,
    );
    assert!(r.is_none());
    assert!(!token.is_set());
    // each of the 3 rounds timed out after 2 polls
    assert_eq!(stub.polls, 6);
}

#[test]
fn gpu_driver_exits_silently_when_the_token_is_already_set() {
    let target = TargetSpec::new(Vec::new(), false).unwrap();
    let engine = GpuVanitySearch::new();
    let mut stub = StubPrimitive::new(Some(0), round_buffer(&[0u8; 16], 1));
    let token = CancellationToken::new();
    token.set();
    let abort = CancellationToken::new();
    let r = gpu_driver_run(
        0,
        &mut stub,
        &engine,
        &[1u8; 32],
        &[2u8; 32],
        &target,
        &token,
        &abort,
        u64::MAX,
    );
    assert!(r.is_none());
    assert!(!stub.committed);
}

#[test]
fn gpu_driver_keeps_discarding_non_matching_rounds() {
    // The stub always returns the same non-matching seed material, so the
    // driver must exhaust its round budget without a report.
    let base = [1u8; 32];
    let owner = [2u8; 32];
    let seed16 = *b"0123456789abcdef";
    let encoded = encode(&derive_candidate_bytes(&base, &seed16.to_vec(), &owner));
    let mut wrong = encoded[..2].to_vec();
    wrong[0] = if wrong[0] == b'2' { b'3' } else { b'2' };
    let target = TargetSpec::new(wrong, false).unwrap();

    let engine = GpuVanitySearch { max_polls: 10, poll_interval_millis: 0 };
    let mut stub = StubPrimitive::new(Some(0), round_buffer(&seed16, 7));
    let token = CancellationToken::new();
    let abort = CancellationToken::new();
    let r =
        gpu_driver_run(0, &mut stub, &engine, &base, &owner, &target, &token, &abort, 4);
    assert!(r.is_none());
    assert!(!token.is_set());
}

#[test]
fn device_sizing_follows_the_working_set_formula() {
    let ctx = MetalContext::new(
        true,
        Some(DeviceLimits {
            max_threads_per_threadgroup: 1024,
            recommended_max_working_set_size: 0,
        }),
    )
    .unwrap();
    assert!(ctx.case_insensitive);
    assert_eq!(ctx.max_threads_per_threadgroup, 1024);
    assert_eq!(ctx.num_threadgroups, 536870912 / 262144);

    let ctx = MetalContext::new(
        false,
        Some(DeviceLimits {
            max_threads_per_threadgroup: 256,
            recommended_max_working_set_size: 1073741824,
        }),
    )
    .unwrap();
    assert_eq!(ctx.num_threadgroups, 1073741824 / 262144);
}

#[test]
fn missing_device_is_reported_as_unavailable() {
    let r = MetalContext::new(false, None);
    assert_eq!(r.unwrap_err(), VanityError::DeviceUnavailable);
    assert_eq!(VanityError::DeviceUnavailable.message(), "no compute device found");
    assert_eq!(
        VanityError::RoundInterrupted.message(),
        "GPU computation interrupted"
    );
}

#[test]
fn worker_count_resolution_never_stays_zero() {
    let mut n: u32 = 0;
    maybe_update_num_cpus(&mut n);
    assert!(n >= 1);
    let mut m: u32 = 7;
    maybe_update_num_cpus(&mut m);
    assert_eq!(m, 7);
}
