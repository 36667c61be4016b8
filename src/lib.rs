use vstd::prelude::*;

pub mod effect_log;
pub mod effects;
pub mod engine;
pub mod graph;
pub mod patch;
pub mod runner;
pub mod scheduler;
pub mod selector;
pub mod store;
pub mod telemetry;
pub mod transaction;
pub mod types;

pub use effect_log::{EffectLog, EffectRecord, FakeDom};
pub use effects::EffectQueue;
pub use engine::Engine;
pub use graph::DependencyGraph;
pub use patch::{PatchBatch, PatchOp};
pub use runner::RunnerState;
pub use scheduler::{Scheduler, SchedulerError};
pub use selector::{Selector, SelectorContext};
pub use store::Store;
pub use telemetry::{
    ActiveTick, GuardrailEvent, PhaseDurations, TelemetryRecorder, TickResult, TickTelemetry, WorkBreakdown,
};
pub use transaction::{CommitOutcome, ExecutionResult, Transaction, TransactionError};
pub use types::NodeId;

verus! {

} // verus!
