//! The data model of a job's outcome: per-stage results, the overall
//! classification, and the final report.

use vstd::prelude::*;

verus! {

/// Overall classification of one job, as laid down by the stage runner:
/// a non-final stage exiting non-zero is a build failure, the final stage
/// exiting non-zero a runtime failure, and a stage killed for a limit
/// violation overrides either; infrastructure faults (the sandbox could not
/// be set up, or teardown could not reclaim it) are classified apart from
/// anything the submitted program did.
#[derive(Clone, Copy, Debug, PartialEq, Eq, Structural)]
pub enum Status {
    Success,
    BuildFailure(usize),
    RuntimeFailure(usize),
    Timeout(usize),
    ResourceExceeded(usize),
    SandboxSetupFailure,
    SandboxIntegrityFailure,
}

/// What the host observed of one stage's process, exactly as it came out of
/// the sandbox: exit code (`None` when the process was killed), the complete
/// captured output streams, elapsed wall time, and which limit (if any)
/// forced the kill.
pub struct RawOutcome {
    pub exit_code: Option<i32>,
    pub stdout: Vec<u8>,
    pub stderr: Vec<u8>,
    pub duration_ms: u64,
    pub timed_out: bool,
    pub memory_exceeded: bool,
}

/// The retained record of one stage: like [`RawOutcome`], but with each
/// output stream capped to a fixed retained size, and a flag per stream
/// saying whether anything was discarded.
pub struct StageResult {
    pub exit_code: Option<i32>,
    pub stdout: Vec<u8>,
    pub stderr: Vec<u8>,
    pub stdout_truncated: bool,
    pub stderr_truncated: bool,
    pub duration_ms: u64,
    pub timed_out: bool,
    pub memory_exceeded: bool,
}

/// The report returned for one job: the retained stage records in submission
/// order, and the overall classification.
pub struct JobResult {
    pub status: Status,
    pub stage_results: Vec<StageResult>,
}

/// A stage counts as passed exactly when its process exited with code zero
/// and no limit forced a kill.
pub open spec fn stage_passed(r: StageResult) -> bool {
    r.exit_code == Some(0i32) && !r.timed_out && !r.memory_exceeded
}

/// Same reading of success, on the raw outcome the host reported.
pub open spec fn outcome_passed(o: RawOutcome) -> bool {
    o.exit_code == Some(0i32) && !o.timed_out && !o.memory_exceeded
}

/// The first `cap` elements of `s`, or all of `s` if it is no longer.
pub open spec fn capped(s: Seq<u8>, cap: nat) -> Seq<u8> {
    if s.len() <= cap {
        s
    } else {
        s.take(cap as int)
    }
}

/// How a retained stage record relates to the raw outcome it came from:
/// everything is kept as reported except the two output streams, which are
/// capped at `cap` bytes with the loss flagged.
pub open spec fn reflects_outcome(r: StageResult, o: RawOutcome, cap: nat) -> bool {
    &&& r.exit_code == o.exit_code
    &&& r.duration_ms == o.duration_ms
    &&& r.timed_out == o.timed_out
    &&& r.memory_exceeded == o.memory_exceeded
    &&& r.stdout@ == capped(o.stdout@, cap)
    &&& r.stdout_truncated == (o.stdout@.len() > cap)
    &&& r.stderr@ == capped(o.stderr@, cap)
    &&& r.stderr_truncated == (o.stderr@.len() > cap)
}

/// The classification earned by the stages alone, for a run that executed at
/// least one stage out of `n_stages` and stopped at the first failure:
/// success when every stage ran and the last one passed, otherwise the last
/// recorded stage is the failing one, with a limit violation taking
/// precedence over its exit code and wall-clock expiry over the memory bound.
pub open spec fn program_status(rs: Seq<StageResult>, n_stages: int) -> Status
    recommends
        0 < rs.len() <= n_stages,
{
    let last = rs.len() - 1;
    let r = rs[last];
    if stage_passed(r) && rs.len() == n_stages {
        Status::Success
    } else if r.timed_out {
        Status::Timeout(last as usize)
    } else if r.memory_exceeded {
        Status::ResourceExceeded(last as usize)
    } else if rs.len() == n_stages {
        Status::RuntimeFailure(last as usize)
    } else {
        Status::BuildFailure(last as usize)
    }
}

} // verus!
