use vstd::prelude::*;

use crate::errors::EngineError;
use crate::errors::PluginError;

verus! {

/// Opaque run-time configuration forwarded unchanged from the host process
/// to every plugin when it loads. Its shape is owned by the excluded
/// configuration subsystem; the runtime only passes it along, once per
/// plugin, before the first validate or run.
#[derive(Debug, Clone, PartialEq, Eq)]
pub struct RuntimeConfig {}

impl Default for RuntimeConfig {
    fn default() -> (r: Self)
        ensures
            r == (RuntimeConfig {  }),
    {
        RuntimeConfig {  }
    }
}

/// The base capability every action executor supports, built-in or loaded
/// from a shared object: a fixed name and the two lifecycle hooks.
pub trait Plugin {
    /// The capability name this executor answers to, fixed for the
    /// executor's lifetime. Executors loaded from outside the process
    /// leave this at the default; nothing is claimed of their name.
    open spec fn name_spec(&self) -> Seq<char> {
        Seq::empty()
    }

    /// Pure and side-effect-free: returns the declared capability name.
    fn name(&self) -> (r: &'static str)
        ensures
            r@ == self.name_spec(),
    ;

    /// One-time setup hook, run exactly once, immediately after
    /// construction and before any validate or run. It has no error
    /// channel, so it must not fail loudly, and it keeps the declared
    /// name.
    fn on_load(&mut self, config: RuntimeConfig)
        ensures
            final(self).name_spec() == old(self).name_spec(),
    ;

    /// Teardown hook, run at most once, at manager teardown; it releases
    /// whatever `on_load` or later runs acquired and has no error channel.
    fn on_unload(&self);
}

/// The execution capability layered on the base one: a pure precondition
/// check and the action itself. Implemented by every runnable executor,
/// whether compiled into the host process or constructed from a shared
/// object's exported symbol.
pub trait ExecutionPlugin: Plugin {
    /// Pure precondition check; must not mutate state. Called before
    /// `run`, though `run` re-validates so direct callers cannot skip it.
    fn validate(&self) -> Result<bool, EngineError>;

    /// Performs the action, populating the executor's internal process
    /// record as a side effect; must re-validate first and fail without
    /// executing anything when validation fails.
    fn run(&mut self) -> Result<(), EngineError>;
}

} // verus!
