//! A bounded-concurrency batch job orchestrator.
//!
//! The crate holds the decisions of a batch run as verified state machines:
//! which work item is admitted next under the concurrency cap, what a single
//! job does after each of its steps, how outcomes are aggregated, and how the
//! failure report is laid out. Performing the steps (network transfers, file
//! deletion, reading the time of the run, writing the report) is left to the
//! caller.
pub mod config;
pub mod counter;
pub mod error;
pub mod job;
pub mod lines;
pub mod names;
pub mod progress;
pub mod scheduler;
pub mod sheet;

pub use config::Config;
pub use counter::ActiveCounter;
pub use counter::DownloadGuard;
pub use error::AppError;
pub use job::CombineInputs;
pub use job::JobRunner;
pub use job::JobStep;
pub use job::Metadata;
pub use job::StepResult;
pub use names::FileNames;
pub use progress::DownloadProgress;
pub use progress::JobOutcome;
pub use progress::ProgressReport;
pub use scheduler::BatchScheduler;
pub use scheduler::BatchSummary;
pub use scheduler::WorkItem;
pub use sheet::SheetRow;
