//! The stage runner: a state machine that drives one job from sandbox
//! acquisition through its ordered stages to guaranteed teardown.
//!
//! The engine performs no I/O itself. Its host asks [`JobRun::next_action`]
//! what to do, performs that action (acquire the sandbox, run one stage
//! synchronously, release the isolation context, release the workspace), and
//! reports what happened back through the `record_*` methods. The contracts
//! pin down the whole protocol: stages run strictly in submission order, one
//! at a time; the pipeline stops at the first stage that fails or is killed
//! for a limit violation; and every path — success, early abort, or a setup
//! failure — passes through the release of the isolation context and then of
//! the workspace before the run may finish.

use vstd::prelude::*;

use crate::aggregate::make_stage_result;
use crate::report::{
    outcome_passed, program_status, reflects_outcome, stage_passed, JobResult, RawOutcome,
    StageResult, Status,
};

verus! {

/// Where a run stands in its lifecycle. Phases only ever advance, in this
/// order; the two release phases are on every path.
#[derive(Clone, Copy, Debug, PartialEq, Eq, Structural)]
pub enum Phase {
    Setup,
    Stages,
    ContextRelease,
    WorkspaceRelease,
    Done,
}

/// What the host must do next for this run.
#[derive(Clone, Copy, Debug, PartialEq, Eq, Structural)]
pub enum Action {
    /// Provision the workspace and acquire an isolation context.
    AcquireSandbox,
    /// Run the stage with this index inside the sandbox and report its
    /// outcome.
    RunStage(usize),
    /// Release the isolation context (best effort) and report whether every
    /// host-side resource was reclaimed.
    ReleaseContext,
    /// Release the workspace (best effort, idempotent) and report whether it
    /// was reclaimed or already gone.
    ReleaseWorkspace,
    /// Nothing is left to do; the report may be taken.
    Finished,
}

/// One job's run: the number of submitted stages, the retained stage
/// records, and the lifecycle bookkeeping. The outcome history fed to the
/// run is kept in ghost state so that the contracts can say that the report
/// is a function of this run's own events and of nothing else.
pub struct JobRun {
    pub n_stages: usize,
    pub cap: usize,
    pub phase: Phase,
    pub setup_ok: bool,
    pub results: Vec<StageResult>,
    pub ctx_reclaimed: bool,
    pub ws_reclaimed: bool,
    pub history: Ghost<Seq<RawOutcome>>,
}

impl JobRun {
    /// The number of stages the job was submitted with.
    pub open spec fn stage_count(self) -> int {
        self.n_stages as int
    }

    /// The stage records retained so far, in submission order.
    pub open spec fn recorded(self) -> Seq<StageResult> {
        self.results@
    }

    /// Well-formedness, established by [`JobRun::new`] and preserved by
    /// every transition: at most one record per submitted stage; every
    /// record but the last one is of a passing stage (the runner stops at
    /// the first failure); each record mirrors, output capped, the outcome
    /// the host reported; and the records agree with the phase — none
    /// before setup, all passing and fewer than the stage count while
    /// stages may still run, and on a teardown path either every stage ran
    /// or the last record is the failing stage.
    pub open spec fn inv(self) -> bool {
        &&& self.n_stages >= 1
        &&& self.results@.len() <= self.n_stages
        &&& forall|i: int|
            0 <= i < self.results@.len() - 1 ==> stage_passed(#[trigger] self.results@[i])
        &&& self.results@.len() == self.history@.len()
        &&& forall|i: int|
            0 <= i < self.results@.len() ==> reflects_outcome(
                #[trigger] self.results@[i],
                self.history@[i],
                self.cap as nat,
            )
        &&& match self.phase {
            Phase::Setup => self.results@.len() == 0,
            Phase::Stages => {
                &&& self.setup_ok
                &&& self.results@.len() < self.n_stages
                &&& forall|i: int|
                    0 <= i < self.results@.len() ==> stage_passed(#[trigger] self.results@[i])
            },
            _ => {
                &&& (self.setup_ok ==> self.results@.len() >= 1 && (self.results@.len()
                    < self.n_stages ==> !stage_passed(self.results@[self.results@.len() - 1])))
                &&& (!self.setup_ok ==> self.results@.len() == 0)
            },
        }
    }

    /// The overall classification this run has earned: a teardown that
    /// failed to reclaim either the context or the workspace is never
    /// swallowed; failing to set the sandbox up at all is reported as such;
    /// otherwise the stages speak for themselves.
    pub open spec fn final_status(self) -> Status {
        if !self.ctx_reclaimed || !self.ws_reclaimed {
            Status::SandboxIntegrityFailure
        } else if !self.setup_ok {
            Status::SandboxSetupFailure
        } else {
            program_status(self.results@, self.n_stages as int)
        }
    }

    /// The action owed for each phase.
    pub open spec fn next_action_spec(self) -> Action {
        match self.phase {
            Phase::Setup => Action::AcquireSandbox,
            Phase::Stages => Action::RunStage(self.results@.len() as usize),
            Phase::ContextRelease => Action::ReleaseContext,
            Phase::WorkspaceRelease => Action::ReleaseWorkspace,
            Phase::Done => Action::Finished,
        }
    }

    /// Begins a run for a job of `n_stages` stages, retaining at most `cap`
    /// bytes of each output stream per stage.
    pub fn new(n_stages: usize, cap: usize) -> (run: JobRun)
        requires
            n_stages >= 1,
        ensures
            run.inv(),
            run.phase == Phase::Setup,
            run.n_stages == n_stages,
            run.cap == cap,
            run.recorded() == Seq::<StageResult>::empty(),
            run.history@ == Seq::<RawOutcome>::empty(),
    {
        JobRun {
            n_stages,
            cap,
            phase: Phase::Setup,
            setup_ok: false,
            results: Vec::new(),
            ctx_reclaimed: false,
            ws_reclaimed: false,
            history: Ghost(Seq::empty()),
        }
    }

    /// What the host must do next.
    pub fn next_action(&self) -> (a: Action)
        ensures
            a == self.next_action_spec(),
    {
        match self.phase {
            Phase::Setup => Action::AcquireSandbox,
            Phase::Stages => Action::RunStage(self.results.len()),
            Phase::ContextRelease => Action::ReleaseContext,
            Phase::WorkspaceRelease => Action::ReleaseWorkspace,
            Phase::Done => Action::Finished,
        }
    }

    /// Records whether the workspace and isolation context could be
    /// acquired. On failure no stage ever runs, but teardown is still owed:
    /// whatever was partially acquired must be released.
    pub fn record_setup(&mut self, acquired: bool)
        requires
            old(self).inv(),
            old(self).phase == Phase::Setup,
        ensures
            final(self).inv(),
            final(self).phase == (if acquired {
                Phase::Stages
            } else {
                Phase::ContextRelease
            }),
            final(self).setup_ok == acquired,
            final(self).n_stages == old(self).n_stages,
            final(self).cap == old(self).cap,
            final(self).recorded() == old(self).recorded(),
            final(self).history@ == old(self).history@,
            final(self).ctx_reclaimed == old(self).ctx_reclaimed,
            final(self).ws_reclaimed == old(self).ws_reclaimed,
    {
        self.setup_ok = acquired;
        self.phase = if acquired {
            Phase::Stages
        } else {
            Phase::ContextRelease
        };
    }

    /// Records the outcome of the stage the run asked for. The retained
    /// record caps each output stream at `cap` bytes; the pipeline goes on
    /// to the next stage only if this one passed and stages remain, and
    /// otherwise moves to teardown.
    pub fn record_stage(&mut self, outcome: RawOutcome)
        requires
            old(self).inv(),
            old(self).phase == Phase::Stages,
        ensures
            final(self).inv(),
            final(self).recorded().len() == old(self).recorded().len() + 1,
            final(self).recorded().subrange(0, old(self).recorded().len() as int) == old(
                self,
            ).recorded(),
            reflects_outcome(
                final(self).recorded()[old(self).recorded().len() as int],
                outcome,
                old(self).cap as nat,
            ),
            final(self).history@ == old(self).history@.push(outcome),
            final(self).phase == (if outcome_passed(outcome) && old(self).recorded().len() + 1
                < old(self).stage_count() {
                Phase::Stages
            } else {
                Phase::ContextRelease
            }),
            final(self).n_stages == old(self).n_stages,
            final(self).cap == old(self).cap,
            final(self).setup_ok == old(self).setup_ok,
            final(self).ctx_reclaimed == old(self).ctx_reclaimed,
            final(self).ws_reclaimed == old(self).ws_reclaimed,
    {
        let ghost o = outcome;
        let r = make_stage_result(outcome, self.cap);
        let passed = match r.exit_code {
            Some(code) => code == 0,
            None => false,
        } && !r.timed_out && !r.memory_exceeded;
        self.results.push(r);
        self.history = Ghost(self.history@.push(o));
        if !(passed && self.results.len() < self.n_stages) {
            self.phase = Phase::ContextRelease;
        }
        assert(self.results@.subrange(0, old(self).results@.len() as int) =~= old(
            self,
        ).results@);
    }

    /// Records whether releasing the isolation context reclaimed every
    /// host-side resource. Whatever the answer, the workspace release is
    /// still owed next: a failure here must not prevent attempting it.
    pub fn record_context_release(&mut self, reclaimed: bool)
        requires
            old(self).inv(),
            old(self).phase == Phase::ContextRelease,
        ensures
            final(self).inv(),
            final(self).phase == Phase::WorkspaceRelease,
            final(self).ctx_reclaimed == reclaimed,
            final(self).n_stages == old(self).n_stages,
            final(self).cap == old(self).cap,
            final(self).setup_ok == old(self).setup_ok,
            final(self).recorded() == old(self).recorded(),
            final(self).history@ == old(self).history@,
            final(self).ws_reclaimed == old(self).ws_reclaimed,
    {
        self.ctx_reclaimed = reclaimed;
        self.phase = Phase::WorkspaceRelease;
    }

    /// Records whether the workspace was reclaimed (a workspace already
    /// deleted from inside the sandbox counts as reclaimed: the release is
    /// idempotent). This completes the run.
    pub fn record_workspace_release(&mut self, reclaimed: bool)
        requires
            old(self).inv(),
            old(self).phase == Phase::WorkspaceRelease,
        ensures
            final(self).inv(),
            final(self).phase == Phase::Done,
            final(self).ws_reclaimed == reclaimed,
            final(self).n_stages == old(self).n_stages,
            final(self).cap == old(self).cap,
            final(self).setup_ok == old(self).setup_ok,
            final(self).recorded() == old(self).recorded(),
            final(self).history@ == old(self).history@,
            final(self).ctx_reclaimed == old(self).ctx_reclaimed,
    {
        self.ws_reclaimed = reclaimed;
        self.phase = Phase::Done;
    }

    /// Takes the finished run's report: the retained stage records in
    /// submission order, and the overall classification.
    pub fn into_report(self) -> (report: JobResult)
        requires
            self.inv(),
            self.phase == Phase::Done,
        ensures
            report.stage_results@ == self.recorded(),
            report.status == self.final_status(),
            report.stage_results@.len() <= self.stage_count(),
    {
        let status = self.classify();
        JobResult { status, stage_results: self.results }
    }

    /// Computes the overall classification of a finished run.
    fn classify(&self) -> (s: Status)
        requires
            self.inv(),
            self.phase == Phase::Done,
        ensures
            s == self.final_status(),
    {
        if !self.ctx_reclaimed || !self.ws_reclaimed {
            Status::SandboxIntegrityFailure
        } else if !self.setup_ok {
            Status::SandboxSetupFailure
        } else {
            let last = self.results.len() - 1;
            let passed = match self.results[last].exit_code {
                Some(code) => code == 0,
                None => false,
            } && !self.results[last].timed_out && !self.results[last].memory_exceeded;
            if passed && self.results.len() == self.n_stages {
                Status::Success
            } else if self.results[last].timed_out {
                Status::Timeout(last)
            } else if self.results[last].memory_exceeded {
                Status::ResourceExceeded(last)
            } else if self.results.len() == self.n_stages {
                Status::RuntimeFailure(last)
            } else {
                Status::BuildFailure(last)
            }
        }
    }
}

} // verus!
