//! Verified core of an installer that downloads, unpacks and arranges a
//! runtime image, writes driver scripts and runs them in a fixed order.
//!
//! The library decides; the caller performs the I/O each decision asks for.

pub mod builder;
pub mod error;
pub mod jobs;
pub mod join;
pub mod pattern;
pub mod relocate;
pub mod run;

pub use builder::{Action, BuildOptions, Builder, Stage, lemma_target_cleared_first};
pub use error::InstallerError;
pub use jobs::{DownloadJob, ExecutionStep, ExtractJob, ScriptSpec};
pub use join::{join_all, lemma_join_fails_on_any_failure, lemma_join_keeps_every_output};
pub use relocate::{FoundFile, RelocateJob, Relocation, join_path};
pub use run::{Run, lemma_run_completes_when_all_succeed, lemma_run_stops_at_first_failure};
