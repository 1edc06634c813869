//! The engine's laws: properties that relate several parts of a run,
//! stated over the runner's model and proved once and for all.

use vstd::prelude::*;

use crate::report::{program_status, reflects_outcome, stage_passed, StageResult, Status};
use crate::runner::{JobRun, Phase};

verus! {

/// Law: a run records at most one result per submitted stage; every stage
/// passing forces one record per stage; and a full set of records whose
/// last stage passed means every stage passed. (A full set of records with
/// a failing last stage is the one case where the count alone does not
/// tell: the final stage ran and failed.)
pub proof fn lemma_stage_count(run: JobRun)
    requires
        run.inv(),
        run.phase == Phase::Done,
        run.setup_ok,
    ensures
        run.recorded().len() <= run.stage_count(),
        (forall|i: int| 0 <= i < run.recorded().len() ==> stage_passed(#[trigger] run.recorded()[i]))
            ==> run.recorded().len() == run.stage_count(),
        (run.recorded().len() == run.stage_count() && stage_passed(
            run.recorded()[run.stage_count() - 1],
        )) ==> (forall|i: int|
            0 <= i < run.recorded().len() ==> stage_passed(#[trigger] run.recorded()[i])),
{
    if forall|i: int| 0 <= i < run.recorded().len() ==> stage_passed(#[trigger] run.recorded()[i]) {
        if run.recorded().len() < run.stage_count() {
            assert(stage_passed(run.recorded()[run.recorded().len() - 1]));
        }
    }
}

/// Law: a run of every stage is classified a success exactly when every
/// stage passed — and then the records are one per stage.
pub proof fn lemma_success_iff_all_passed(run: JobRun)
    requires
        run.inv(),
        run.phase == Phase::Done,
        run.setup_ok,
        run.ctx_reclaimed,
        run.ws_reclaimed,
    ensures
        run.final_status() == Status::Success <==> (run.recorded().len() == run.stage_count()
            && forall|i: int|
            0 <= i < run.recorded().len() ==> stage_passed(#[trigger] run.recorded()[i])),
{
    lemma_stage_count(run);
}

/// Law: a job of at least two stages whose first stage fails on its own
/// account (a non-zero exit, not a limit kill) records exactly one stage
/// result and is classified a build failure of stage 0.
pub proof fn lemma_first_stage_build_failure(run: JobRun)
    requires
        run.inv(),
        run.phase == Phase::Done,
        run.setup_ok,
        run.recorded().len() >= 1,
        !stage_passed(run.recorded()[0]),
        !run.recorded()[0].timed_out,
        !run.recorded()[0].memory_exceeded,
        run.stage_count() >= 2,
    ensures
        run.recorded().len() == 1,
        program_status(run.recorded(), run.stage_count()) == Status::BuildFailure(0usize),
{
    if run.recorded().len() >= 2 {
        assert(stage_passed(run.recorded()[0]));
    }
}

/// Law: a stage killed for running past its time budget is the last stage
/// that ran — nothing is executed after it — and, teardown going well, the
/// whole run is classified a timeout of that stage.
pub proof fn lemma_timeout_classified(run: JobRun, i: int)
    requires
        run.inv(),
        run.phase == Phase::Done,
        run.setup_ok,
        run.ctx_reclaimed,
        run.ws_reclaimed,
        0 <= i < run.recorded().len(),
        run.recorded()[i].timed_out,
    ensures
        i == run.recorded().len() - 1,
        run.final_status() == Status::Timeout(i as usize),
{
    assert(!stage_passed(run.recorded()[i]));
}

/// Law: a stage killed for exceeding its memory bound (and not also its
/// time budget, which takes precedence) is the last stage that ran, and,
/// teardown going well, the whole run is classified a resource violation
/// of that stage.
pub proof fn lemma_memory_classified(run: JobRun, i: int)
    requires
        run.inv(),
        run.phase == Phase::Done,
        run.setup_ok,
        run.ctx_reclaimed,
        run.ws_reclaimed,
        0 <= i < run.recorded().len(),
        run.recorded()[i].memory_exceeded,
        !run.recorded()[i].timed_out,
    ensures
        i == run.recorded().len() - 1,
        run.final_status() == Status::ResourceExceeded(i as usize),
{
    assert(!stage_passed(run.recorded()[i]));
}

/// Law: while stages may still run, the machine asks for exactly the next
/// unrecorded stage — stages run in submission order, none skipped, none
/// repeated, and never one the job does not have.
pub proof fn lemma_stages_requested_in_order(run: JobRun)
    requires
        run.inv(),
        run.phase == Phase::Stages,
    ensures
        run.next_action_spec() == crate::runner::Action::RunStage(run.recorded().len() as usize),
        run.recorded().len() < run.stage_count(),
{
}

/// Law: a teardown that could not reclaim the isolation context or the
/// workspace is never swallowed — whatever the stages did, the run is
/// classified a sandbox integrity failure.
pub proof fn lemma_teardown_failure_reported(run: JobRun)
    requires
        run.inv(),
        run.phase == Phase::Done,
        !(run.ctx_reclaimed && run.ws_reclaimed),
    ensures
        run.final_status() == Status::SandboxIntegrityFailure,
{
}

/// Two retained stage records that agree on everything observable: exit
/// code, timing, limit flags, and the capped output streams.
pub open spec fn retained_alike(r1: StageResult, r2: StageResult) -> bool {
    &&& r1.exit_code == r2.exit_code
    &&& r1.duration_ms == r2.duration_ms
    &&& r1.timed_out == r2.timed_out
    &&& r1.memory_exceeded == r2.memory_exceeded
    &&& r1.stdout@ == r2.stdout@
    &&& r1.stdout_truncated == r2.stdout_truncated
    &&& r1.stderr@ == r2.stderr@
    &&& r1.stderr_truncated == r2.stderr_truncated
}

/// Law: a run's report is a function of that run's own events alone — the
/// outcomes its own stages produced and its own setup and teardown answers.
/// Two runs fed the same events end with observably equal records and the
/// same classification, so concurrently running jobs, each with a run of
/// its own, cannot contaminate one another's reports.
pub proof fn lemma_report_determined_by_own_events(a: JobRun, b: JobRun)
    requires
        a.inv(),
        b.inv(),
        a.phase == Phase::Done,
        b.phase == Phase::Done,
        a.n_stages == b.n_stages,
        a.cap == b.cap,
        a.history@ == b.history@,
        a.setup_ok == b.setup_ok,
        a.ctx_reclaimed == b.ctx_reclaimed,
        a.ws_reclaimed == b.ws_reclaimed,
    ensures
        a.recorded().len() == b.recorded().len(),
        forall|i: int|
            0 <= i < a.recorded().len() ==> retained_alike(
                #[trigger] a.recorded()[i],
                b.recorded()[i],
            ),
        a.final_status() == b.final_status(),
{
    assert forall|i: int| 0 <= i < a.recorded().len() implies retained_alike(
        #[trigger] a.recorded()[i],
        b.recorded()[i],
    ) by {
        assert(reflects_outcome(a.recorded()[i], a.history@[i], a.cap as nat));
        assert(reflects_outcome(b.recorded()[i], b.history@[i], b.cap as nat));
    }
    if a.ctx_reclaimed && a.ws_reclaimed && a.setup_ok {
        let last = a.recorded().len() - 1;
        assert(retained_alike(a.recorded()[last], b.recorded()[last]));
        assert(stage_passed(a.recorded()[last]) == stage_passed(b.recorded()[last]));
    }
}

} // verus!
