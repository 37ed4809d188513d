//! Verified orchestration core for a batch PDF-shrinking workflow.
//!
//! The actual recompression is performed by an external Ghostscript
//! process; this library holds the decision logic around it — which
//! files are candidates, how the engine is invoked, whether a produced
//! file counts as an improvement, how the original is replaced, and how
//! per-file outcomes are aggregated into a run summary — with machine-
//! checked contracts for each step.

pub mod aggregate;
pub mod discover;
pub mod error;
pub mod gate;
pub mod invoke;
pub mod paths;
pub mod pipeline;

pub use aggregate::RunAggregator;
pub use aggregate::RunSummary;
pub use aggregate::overall_success;
pub use discover::Diagnostic;
pub use discover::Discovery;
pub use discover::InputEntry;
pub use discover::WalkEntry;
pub use discover::collect_pdfs;
pub use error::Error;
pub use gate::SizeDecision;
pub use gate::size_gate;
pub use invoke::InvocationOutcome;
pub use invoke::Quality;
pub use invoke::ShrinkOptions;
pub use invoke::classify_invocation;
pub use invoke::gs_args;
pub use invoke::gs_candidates;
pub use paths::is_pdf;
pub use paths::output_path;
pub use paths::temp_path;
pub use pipeline::FileResult;
pub use pipeline::FileStatus;
pub use pipeline::Mode;
pub use pipeline::Step;
pub use pipeline::plan_step;
pub use pipeline::result_after_replace;
