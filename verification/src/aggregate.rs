//! The result aggregator: a pure data-shaping step that turns the raw
//! outcome of one stage into the retained record, capping each captured
//! output stream at a fixed size and flagging the loss.

use vstd::prelude::*;

use crate::report::{capped, reflects_outcome, RawOutcome, StageResult};

verus! {

/// How many bytes of each captured output stream the engine retains per
/// stage; everything past this is discarded and the loss flagged.
pub const OUTPUT_CAP: usize = 65536;

/// Keeps the first `cap` bytes of `data` and reports whether anything was
/// discarded.
pub fn truncate_capped(data: Vec<u8>, cap: usize) -> (r: (Vec<u8>, bool))
    ensures
        r.0@ == capped(data@, cap as nat),
        r.1 == (data@.len() > cap),
{
    if data.len() <= cap {
        (data, false)
    } else {
        let mut kept: Vec<u8> = Vec::new();
        let mut i: usize = 0;
        while i < cap
            invariant
                i <= cap,
                cap < data@.len(),
                kept@ == data@.take(i as int),
            decreases cap - i,
        {
            kept.push(data[i]);
            assert(kept@ == data@.take(i + 1));
            i = i + 1;
        }
        (kept, true)
    }
}

/// Shapes the raw outcome of one stage into its retained record: exit code,
/// timing and limit flags kept as reported, each output stream capped at
/// `cap` bytes.
pub fn make_stage_result(outcome: RawOutcome, cap: usize) -> (r: StageResult)
    ensures
        reflects_outcome(r, outcome, cap as nat),
{
    let RawOutcome { exit_code, stdout, stderr, duration_ms, timed_out, memory_exceeded } =
        outcome;
    let (stdout, stdout_truncated) = truncate_capped(stdout, cap);
    let (stderr, stderr_truncated) = truncate_capped(stderr, cap);
    StageResult {
        exit_code,
        stdout,
        stderr,
        stdout_truncated,
        stderr_truncated,
        duration_ms,
        timed_out,
        memory_exceeded,
    }
}

} // verus!
