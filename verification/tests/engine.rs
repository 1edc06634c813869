use sandbox_engine::aggregate::{make_stage_result, truncate_capped, OUTPUT_CAP};
use sandbox_engine::config::{Config, DEFAULT_MEMORY_LIMIT, DEFAULT_TIME_LIMIT};
use sandbox_engine::job::{prepare, Job, UploadForm};
use sandbox_engine::registry::{plan_for, Language};
use sandbox_engine::report::RawOutcome;
use sandbox_engine::runner::{Action, JobRun};
use sandbox_engine::workspace::{decimal_string, WorkspaceHandle};
use sandbox_engine::{JobResult, Status};

fn outcome(exit: Option<i32>, out: &[u8], err: &[u8], timed: bool, mem: bool) -> RawOutcome {
    RawOutcome {
        exit_code: exit,
        stdout: out.to_vec(),
        stderr: err.to_vec(),
        duration_ms: 7,
        timed_out: timed,
        memory_exceeded: mem,
    }
}

fn drive(n_stages: usize, outcomes: Vec<RawOutcome>, ctx_ok: bool, ws_ok: bool) -> JobResult {
    let mut run = JobRun::new(n_stages, OUTPUT_CAP);
    assert_eq!(run.next_action(), Action::AcquireSandbox);
    run.record_setup(true);
    for o in outcomes {
        match run.next_action() {
            Action::RunStage(_) => run.record_stage(o),
            a => panic!("unexpected action {:?}", a),
        }
    }
    assert_eq!(run.next_action(), Action::ReleaseContext);
    run.record_context_release(ctx_ok);
    assert_eq!(run.next_action(), Action::ReleaseWorkspace);
    run.record_workspace_release(ws_ok);
    assert_eq!(run.next_action(), Action::Finished);
    run.into_report()
}

#[test]
fn single_stage_success() {
    let report = drive(1, vec![outcome(Some(0), b"hi\n", b"", false, false)], true, true);
    assert_eq!(report.status, Status::Success);
    assert_eq!(report.stage_results.len(), 1);
    assert_eq!(report.stage_results[0].exit_code, Some(0));
    assert_eq!(report.stage_results[0].stdout, b"hi\n".to_vec());
    assert!(!report.stage_results[0].stdout_truncated);
    assert!(!report.stage_results[0].timed_out);
    assert!(!report.stage_results[0].memory_exceeded);
}

#[test]
fn two_stage_success_records_both() {
    let report = drive(
        2,
        vec![
            outcome(Some(0), b"", b"warning\n", false, false),
            outcome(Some(0), b"done\n", b"", false, false),
        ],
        true,
        true,
    );
    assert_eq!(report.status, Status::Success);
    assert_eq!(report.stage_results.len(), 2);
    assert_eq!(report.stage_results[0].stderr, b"warning\n".to_vec());
    assert_eq!(report.stage_results[1].stdout, b"done\n".to_vec());
}

#[test]
fn first_stage_failure_is_build_failure() {
    let report = drive(2, vec![outcome(Some(1), b"", b"error\n", false, false)], true, true);
    assert_eq!(report.status, Status::BuildFailure(0));
    assert_eq!(report.stage_results.len(), 1);
    assert_eq!(report.stage_results[0].exit_code, Some(1));
}

#[test]
fn last_stage_failure_is_runtime_failure() {
    let report = drive(
        2,
        vec![outcome(Some(0), b"", b"", false, false), outcome(Some(3), b"", b"", false, false)],
        true,
        true,
    );
    assert_eq!(report.status, Status::RuntimeFailure(1));
    assert_eq!(report.stage_results.len(), 2);
}

#[test]
fn timed_out_stage_is_timeout() {
    let report = drive(
        2,
        vec![outcome(Some(0), b"", b"", false, false), outcome(None, b"part", b"", true, false)],
        true,
        true,
    );
    assert_eq!(report.status, Status::Timeout(1));
    assert_eq!(report.stage_results.len(), 2);
    assert!(report.stage_results[1].timed_out);
    assert_eq!(report.stage_results[1].exit_code, None);
}

#[test]
fn memory_exceeded_stage_is_resource_exceeded() {
    let report = drive(1, vec![outcome(None, b"", b"", false, true)], true, true);
    assert_eq!(report.status, Status::ResourceExceeded(0));
    assert!(report.stage_results[0].memory_exceeded);
}

#[test]
fn timeout_takes_precedence_over_memory() {
    let report = drive(1, vec![outcome(None, b"", b"", true, true)], true, true);
    assert_eq!(report.status, Status::Timeout(0));
}

#[test]
fn limit_kill_beats_zero_exit() {
    // even a zero exit code is a timeout when the clock ran out
    let report = drive(1, vec![outcome(Some(0), b"", b"", true, false)], true, true);
    assert_eq!(report.status, Status::Timeout(0));
}

#[test]
fn setup_failure_runs_no_stage() {
    let mut run = JobRun::new(3, OUTPUT_CAP);
    run.record_setup(false);
    assert_eq!(run.next_action(), Action::ReleaseContext);
    run.record_context_release(true);
    run.record_workspace_release(true);
    let report = run.into_report();
    assert_eq!(report.status, Status::SandboxSetupFailure);
    assert_eq!(report.stage_results.len(), 0);
}

#[test]
fn teardown_failure_is_reported_even_on_success() {
    let report = drive(1, vec![outcome(Some(0), b"hi\n", b"", false, false)], false, true);
    assert_eq!(report.status, Status::SandboxIntegrityFailure);
    // the stage record itself is still retained
    assert_eq!(report.stage_results.len(), 1);
}

#[test]
fn workspace_release_failure_is_reported() {
    let report = drive(1, vec![outcome(Some(0), b"", b"", false, false)], true, false);
    assert_eq!(report.status, Status::SandboxIntegrityFailure);
}

#[test]
fn deleted_workspace_counts_as_reclaimed() {
    // a workspace wiped from inside the sandbox: release finds nothing and
    // reports it reclaimed; the job's own verdict stands
    let report = drive(1, vec![outcome(Some(0), b"", b"", false, false)], true, true);
    assert_eq!(report.status, Status::Success);
}

#[test]
fn same_events_same_report() {
    let mk = || {
        drive(
            2,
            vec![outcome(Some(0), b"a", b"", false, false), outcome(Some(2), b"b", b"c", false, false)],
            true,
            true,
        )
    };
    let r1 = mk();
    let r2 = mk();
    assert_eq!(r1.status, r2.status);
    assert_eq!(r1.stage_results.len(), r2.stage_results.len());
    for (a, b) in r1.stage_results.iter().zip(r2.stage_results.iter()) {
        assert_eq!(a.exit_code, b.exit_code);
        assert_eq!(a.stdout, b.stdout);
        assert_eq!(a.stderr, b.stderr);
    }
}

#[test]
fn output_is_capped_and_flagged() {
    let big = vec![b'x'; 10];
    let (kept, truncated) = truncate_capped(big, 3);
    assert_eq!(kept, vec![b'x'; 3]);
    assert!(truncated);
}

#[test]
fn output_at_cap_is_kept_whole() {
    let data = b"abc".to_vec();
    let (kept, truncated) = truncate_capped(data, 3);
    assert_eq!(kept, b"abc".to_vec());
    assert!(!truncated);
}

#[test]
fn empty_output_is_kept_whole() {
    let (kept, truncated) = truncate_capped(Vec::new(), 0);
    assert!(kept.is_empty());
    assert!(!truncated);
}

#[test]
fn stage_record_caps_each_stream() {
    let o = outcome(Some(0), b"0123456789", b"ab", false, false);
    let r = make_stage_result(o, 4);
    assert_eq!(r.stdout, b"0123".to_vec());
    assert!(r.stdout_truncated);
    assert_eq!(r.stderr, b"ab".to_vec());
    assert!(!r.stderr_truncated);
    assert_eq!(r.duration_ms, 7);
}

#[test]
fn config_defaults() {
    let c = Config::new("gcc:14.2".to_string(), "1 2".to_string());
    assert_eq!(c.image, "gcc:14.2");
    assert_eq!(c.stdin, "1 2");
    assert_eq!(c.time_limit, DEFAULT_TIME_LIMIT);
    assert_eq!(c.memory_limit, DEFAULT_MEMORY_LIMIT);
    assert_eq!(c.memory_reserved, 0);
    assert!(c.env.is_empty());
}

#[test]
fn oversized_reservation_is_clamped_not_fatal() {
    let mut c = Config::new("openjdk:11".to_string(), String::new());
    c.memory_limit = 1024;
    c.memory_reserved = 4096000;
    assert_eq!(c.effective_reservation(), 1024);
    c.memory_reserved = 512;
    assert_eq!(c.effective_reservation(), 512);
}

#[test]
fn env_set_inserts_and_replaces() {
    let mut c = Config::new("golang:1.24".to_string(), String::new());
    c.env_set("GOCACHE".to_string(), "/tmp/.cache".to_string());
    c.env_set("HOME".to_string(), "/root".to_string());
    assert_eq!(c.env.len(), 2);
    c.env_set("GOCACHE".to_string(), "/var/cache".to_string());
    assert_eq!(c.env.len(), 2);
    assert!(c.env.iter().any(|(k, v)| k == "GOCACHE" && v == "/var/cache"));
    assert!(c.env.iter().any(|(k, v)| k == "HOME" && v == "/root"));
}

#[test]
fn plans_per_language() {
    let c = plan_for(Language::C);
    assert_eq!(c.filename, "main.c");
    assert_eq!(c.scripts.len(), 2);
    assert_eq!(c.scripts[0].body, "#!/bin/bash\ngcc main.c -o main");
    assert_eq!(c.scripts[1].body, "#!/bin/bash\n./main");

    let cpp = plan_for(Language::Cpp);
    assert_eq!(cpp.filename, "main.cpp");
    assert_eq!(cpp.scripts[0].body, "#!/bin/bash\ng++ main.cpp -o main");

    let py = plan_for(Language::Python3);
    assert_eq!(py.filename, "main.py");
    assert_eq!(py.scripts.len(), 1);
    assert_eq!(py.scripts[0].body, "#!/bin/bash\npython main.py");

    let java = plan_for(Language::Java);
    assert_eq!(java.filename, "Main.java");
    assert_eq!(java.scripts[0].body, "#!/bin/bash\njavac -J-Xms64m -J-Xmx128m Main.java");
    assert_eq!(java.scripts[1].body, "#!/bin/bash\njava -Xms64m -Xmx128m Main");

    let go = plan_for(Language::Go);
    assert_eq!(go.filename, "main.go");
    assert_eq!(go.scripts[0].body, "#!/bin/bash\ngo build main.go");
}

#[test]
fn stdin_goes_to_the_run_stage_alone() {
    for lang in [Language::C, Language::Cpp, Language::Python3, Language::Java, Language::Go] {
        let plan = plan_for(lang);
        let last = plan.scripts.len() - 1;
        for (i, s) in plan.scripts.iter().enumerate() {
            assert_eq!(s.feed_stdin, i == last);
        }
    }
}

#[test]
fn prepare_pairs_form_with_plan() {
    let form = UploadForm::new(
        "int main() { return 0; }".to_string(),
        "gcc:14.2".to_string(),
        "1 2".to_string(),
    );
    let (job, config) = prepare(form, Language::C);
    assert_eq!(job.source, "int main() { return 0; }");
    assert_eq!(job.filename, "main.c");
    assert_eq!(job.scripts.len(), 2);
    assert_eq!(config.image, "gcc:14.2");
    assert_eq!(config.stdin, "1 2");
}

#[test]
fn job_starts_a_run_per_stage_count() {
    let plan = plan_for(Language::Go);
    let job = Job::new("package main".to_string(), plan.filename, plan.scripts);
    assert_eq!(job.stage_count(), 2);
    let run = job.start(OUTPUT_CAP);
    assert_eq!(run.next_action(), Action::AcquireSandbox);
}

#[test]
fn decimal_rendering_exact() {
    assert_eq!(decimal_string(0), "0");
    assert_eq!(decimal_string(7), "7");
    assert_eq!(decimal_string(12345), "12345");
    assert_eq!(decimal_string(u64::MAX), "18446744073709551615");
}

#[test]
fn workspace_names_are_distinct_per_job() {
    let a = WorkspaceHandle::new(1);
    let b = WorkspaceHandle::new(2);
    let c = WorkspaceHandle::new(12);
    assert_eq!(a.dir_name, "job_1");
    assert_eq!(b.dir_name, "job_2");
    assert_eq!(c.dir_name, "job_12");
    assert_ne!(a.dir_name, b.dir_name);
    assert_ne!(b.dir_name, c.dir_name);
}

#[test]
fn independent_runs_do_not_share_output() {
    // two jobs driven "concurrently", interleaving their events
    let mut run_a = JobRun::new(1, OUTPUT_CAP);
    let mut run_b = JobRun::new(1, OUTPUT_CAP);
    run_a.record_setup(true);
    run_b.record_setup(true);
    run_a.record_stage(outcome(Some(0), b"from a\n", b"", false, false));
    run_b.record_stage(outcome(Some(1), b"from b\n", b"", false, false));
    run_a.record_context_release(true);
    run_b.record_context_release(true);
    run_a.record_workspace_release(true);
    run_b.record_workspace_release(true);
    let ra = run_a.into_report();
    let rb = run_b.into_report();
    assert_eq!(ra.status, Status::Success);
    assert_eq!(rb.status, Status::RuntimeFailure(0));
    assert_eq!(ra.stage_results[0].stdout, b"from a\n".to_vec());
    assert_eq!(rb.stage_results[0].stdout, b"from b\n".to_vec());
}
