//! The unit of work: a submitted source text, the filename it is stored
//! under, and the ordered, non-empty stage pipeline — immutable once
//! created — together with the submission form the dispatch surface hands
//! over.

use vstd::prelude::*;

use crate::config::Config;
use crate::registry::{plan_for, plan_matches, Language, StageScript};
use crate::runner::{JobRun, Phase};

verus! {

/// One end-to-end execution request: source, filename, stage pipeline.
pub struct Job {
    pub source: String,
    pub filename: String,
    pub scripts: Vec<StageScript>,
}

impl Job {
    /// A job always has at least one stage.
    pub open spec fn wf(self) -> bool {
        self.scripts@.len() >= 1
    }

    /// Creates a job; the pipeline must be non-empty.
    pub fn new(source: String, filename: String, scripts: Vec<StageScript>) -> (job: Job)
        requires
            scripts@.len() >= 1,
        ensures
            job.wf(),
            job.source@ == source@,
            job.filename@ == filename@,
            job.scripts@ == scripts@,
    {
        Job { source, filename, scripts }
    }

    /// How many stages the job submits.
    pub fn stage_count(&self) -> (n: usize)
        ensures
            n == self.scripts@.len(),
    {
        self.scripts.len()
    }

    /// Begins a run for this job, retaining at most `cap` bytes of each
    /// output stream per stage.
    pub fn start(&self, cap: usize) -> (run: JobRun)
        requires
            self.wf(),
        ensures
            run.inv(),
            run.phase == Phase::Setup,
            run.n_stages == self.scripts@.len(),
            run.cap == cap,
            run.recorded().len() == 0,
            run.history@.len() == 0,
    {
        JobRun::new(self.scripts.len(), cap)
    }
}

/// What a caller submits: the source text, the base image to run against,
/// and the stdin payload.
pub struct UploadForm {
    pub src: String,
    pub image: String,
    pub stdin: String,
}

impl UploadForm {
    pub fn new(src: String, image: String, stdin: String) -> (form: UploadForm)
        ensures
            form.src@ == src@,
            form.image@ == image@,
            form.stdin@ == stdin@,
    {
        UploadForm { src, image, stdin }
    }
}

/// Turns one submission into the job and configuration the engine runs:
/// the source goes under the language's fixed filename, the language's
/// stage plan becomes the pipeline, and the image and stdin payload go
/// into a fresh default configuration.
pub fn prepare(form: UploadForm, lang: Language) -> (jc: (Job, Config))
    ensures
        jc.0.wf(),
        jc.0.source@ == form.src@,
        jc.0.filename@ == crate::registry::plan_filename(lang),
        jc.0.scripts@.len() == crate::registry::plan_stage_count(lang),
        forall|i: int|
            0 <= i < jc.0.scripts@.len() ==> (#[trigger] jc.0.scripts@[i]).body@
                == crate::registry::plan_script(lang, i),
        forall|i: int|
            0 <= i < jc.0.scripts@.len() ==> ((#[trigger] jc.0.scripts@[i]).feed_stdin <==> i
                == jc.0.scripts@.len() - 1),
        jc.1.wf(),
        jc.1.image@ == form.image@,
        jc.1.stdin@ == form.stdin@,
        jc.1.time_limit == crate::config::DEFAULT_TIME_LIMIT,
        jc.1.memory_limit == crate::config::DEFAULT_MEMORY_LIMIT,
        jc.1.memory_reserved == 0,
        jc.1.env@.len() == 0,
{
    let UploadForm { src, image, stdin } = form;
    let plan = plan_for(lang);
    let job = Job { source: src, filename: plan.filename, scripts: plan.scripts };
    let config = Config::new(image, stdin);
    (job, config)
}

} // verus!
