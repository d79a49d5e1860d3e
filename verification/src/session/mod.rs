//! Session runtime: types, run-state bookkeeping, interactive runtimes and
//! engine decisions.

pub mod types;
pub mod permission_runtime;
pub mod question_runtime;
pub mod run_state;
pub mod status_json;
pub mod engine;
pub mod model;
pub mod runtime;
