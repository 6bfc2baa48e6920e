//! A sans-I/O core for dispatching prompts to a local language-model
//! endpoint: request shaping, response decoding, fan-out bookkeeping and
//! execution metrics, each with a machine-checked contract.
//!
//! The crate performs no I/O and keeps no clock. A driver sends the requests
//! that the core hands out, measures the time, runs the units of work
//! concurrently, and reports back what happened; the core decides what each
//! call returns.

pub mod agent;
pub mod batch;
pub mod config;
pub mod exchange;
pub mod ident;
pub mod json;
pub mod metrics;
pub mod parallel;
pub mod request;
pub mod result;

pub use agent::{build_agents, ConstructionError, Execution, RustAgent};
pub use batch::{execute_batch, BatchRound, BatchStep};
pub use config::{AgentConfig, Temperature};
pub use exchange::{Exchange, Failure};
pub use metrics::{get_metrics, ExecutionMetrics, Ratio, Wide};
pub use parallel::{execute_parallel, ExecutionError, JoinEvent, ParallelRun, ParallelStep};
pub use request::GenerateRequest;
pub use result::AgentResult;
