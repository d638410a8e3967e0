//! Action execution runtime for a workflow-automation engine.
//!
//! The library defines the capability contract every action executor
//! satisfies, the process model describing one spawned execution unit,
//! the built-in shell engine, and the plugin manager that maps capability
//! names to executors loaded either in-process or from shared objects.

use vstd::prelude::*;

mod config;
mod errors;
mod flow;
mod manager;
mod plugin;
mod process;
mod shell;
mod store_query;
mod text;

pub use config::AnythingConfig;
pub use config::DatabaseConfig;
pub use errors::EngineError;
pub use errors::PluginError;
pub use flow::CreateFlow;
pub use flow::UpdateFlowArgs;
pub use flow::UpdateFlowVersion;
pub use manager::PluginManager;
pub use manager::lemma_lookup_finds_unique_entry;
pub use manager::lemma_lookup_in_none_iff;
pub use manager::lemma_lookup_in_push;
pub use manager::lemma_registry_at_most_one_entry;
pub use manager::lookup_in;
pub use plugin::ExecutionPlugin;
pub use plugin::Plugin;
pub use plugin::RuntimeConfig;
pub use process::Captured;
pub use process::ExecEnv;
pub use process::ExitStatus;
pub use process::Process;
pub use process::ProcessState;
pub use process::capture_file_path;
pub use process::capture_path;
pub use shell::RunPlan;
pub use shell::ShellAction;
pub use shell::ShellEngine;
pub use shell::lemma_clean_targets_recorded_captures;
pub use store_query::comma_joined;
pub use store_query::event_tags_in;
pub use store_query::event_types_in;
pub use store_query::kept_types;
pub use store_query::quoted;
pub use store_query::quoted_list;
pub use store_query::views_of_strs;

verus! {

/// The interpreter used when an action does not name its own executor.
pub open spec fn default_interpreter() -> Seq<char> {
    "/bin/sh"@
}

} // verus!
