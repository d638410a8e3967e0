use vstd::prelude::*;

verus! {

/// Error raised by an engine while validating, spawning or cleaning up
/// a shell action.
///
/// A non-zero exit code of the executed program is *not* an error: it is
/// recorded in the process state. Only precondition failures and
/// operating-system failures surface here.
#[derive(Debug, Clone, PartialEq, Eq)]
pub enum EngineError {
    /// An executor-specific precondition failed; the payload describes it.
    ShellError(String),
    /// A process-dependent step was asked of an engine that never ran.
    ShellProcessHasNotRunError,
    /// Spawning the execution unit failed at the operating-system level.
    ExecutionError(String),
    /// Reading back or deleting a capture file failed after the process
    /// had already exited; never overturns a completed run.
    CleanupError(String),
}

/// Error raised by the plugin manager while resolving or loading a
/// capability by name.
#[derive(Debug, Clone, PartialEq, Eq)]
pub enum PluginError {
    /// No plugin is known under the given name.
    NotFound(String),
    /// Opening the shared object or resolving its construction symbol failed.
    LoadingError(String),
}

} // verus!
