//! A verified execution engine for running untrusted source code through an
//! ordered pipeline of build/run stages inside a resource-bounded sandbox.
//!
//! The engine itself performs no I/O: it is a state machine that tells its
//! host which action to perform next (provision, run a stage, release the
//! sandbox, release the workspace) and classifies the outcomes the host
//! reports back into a bounded, ordered report. Everything the engine
//! decides — stage sequencing, abort-on-failure, output capping, overall
//! classification, and the guarantee that teardown is always demanded on
//! every path — is stated in contracts and proved.

pub mod aggregate;
pub mod config;
pub mod job;
pub mod laws;
pub mod registry;
pub mod report;
pub mod runner;
pub mod workspace;

pub use config::Config;
pub use job::{Job, UploadForm};
pub use registry::{Language, StagePlan, StageScript};
pub use report::{JobResult, RawOutcome, StageResult, Status};
pub use runner::{Action, JobRun, Phase};
pub use workspace::WorkspaceHandle;
