use vstd::prelude::*;

use crate::errors::EngineError;
use crate::plugin::Plugin;
use crate::plugin::RuntimeConfig;
use crate::process::Captured;
use crate::process::ExecEnv;
use crate::process::ExitStatus;
use crate::process::Process;
use crate::process::ProcessState;
use crate::process::capture_file_path;
use crate::process::capture_path;

verus! {

/// A shell action definition, as handed down by the workflow layer.
/// `command` is mandatory and non-empty; every other field is optional.
#[derive(Debug, Clone, PartialEq, Eq)]
pub struct ShellAction {
    /// Command interpreter override; a POSIX shell when absent.
    pub executor: Option<String>,
    /// The command line to run; the single mandatory field.
    pub command: String,
    /// Extra arguments appended after the command.
    pub args: Vec<String>,
    /// A source working directory whose contents are copied into the
    /// scratch directory before execution; no pre-copy when absent.
    pub cwd: Option<String>,
}

impl ShellAction {
    /// The interpreter a run of this action resolves to: the explicit
    /// executor override, or the POSIX shell by default.
    pub open spec fn resolved_interpreter(&self) -> Seq<char> {
        match self.executor {
            Some(e) => e@,
            None => crate::default_interpreter(),
        }
    }
}

/// Everything one run needs from the engine before any resource is
/// allocated: the fresh identity, the resolved interpreter, the scratch
/// location with its two capture file names, the optional pre-copy
/// source, and the command line itself. The caller performs the
/// operating-system work the plan describes, then reports back through
/// [`ShellEngine::record_spawn`].
#[derive(Debug, Clone, PartialEq, Eq)]
pub struct RunPlan {
    /// Fresh identity namespacing this run's capture files.
    pub uuid: String,
    /// The command interpreter to spawn.
    pub interpreter: String,
    /// The private scratch directory the unit runs in.
    pub scratch_dir: String,
    /// The directory whose contents are copied into the scratch directory
    /// before execution, when one was configured.
    pub copy_from: Option<String>,
    /// Capture file receiving the unit's standard output.
    pub stdout_path: String,
    /// Capture file receiving the unit's standard error.
    pub stderr_path: String,
    /// The command line handed to the interpreter.
    pub command: String,
    /// Extra arguments appended after the command.
    pub args: Vec<String>,
}

impl RunPlan {
    /// What a plan produced for `config` in scratch directory `scratch`
    /// looks like: identity fresh and free of path separators, interpreter
    /// resolved, capture files namespaced by the identity, pre-copy source
    /// and command line taken from the configuration unchanged.
    pub open spec fn wf_for(&self, config: ShellAction, scratch: Seq<char>) -> bool {
        &&& self.uuid@.len() == 36
        &&& forall|i: int| 0 <= i < self.uuid@.len() ==> self.uuid@[i] != '/'
        &&& self.interpreter@ == config.resolved_interpreter()
        &&& self.scratch_dir@ == scratch
        &&& match (self.copy_from, config.cwd) {
            (Some(a), Some(b)) => a@ == b@,
            (None, None) => true,
            _ => false,
        }
        &&& self.stdout_path@ == capture_path(scratch, self.uuid@, "_stdout"@)
        &&& self.stderr_path@ == capture_path(scratch, self.uuid@, "_stderr"@)
        &&& self.command@ == config.command@
        &&& self.args@.map_values(|a: String| a@) == config.args@.map_values(|a: String| a@)
    }
}

/// Relies on `uuid::Uuid::new_v4` and its `Display` form: a fresh random
/// version-4 identity rendered as 36 ASCII characters, lower-case
/// hexadecimal digits and hyphens, so it never contains a path separator.
/// The value is random: nothing relates two calls.
#[verifier::external_body]
fn fresh_identity() -> (r: String)
    ensures
        r@.len() == 36,
        forall|i: int| 0 <= i < r@.len() ==> r@[i] != '/',
{
    uuid::Uuid::new_v4().to_string()
}

/// The built-in reference executor: runs a command line through an
/// operating-system shell, producing a [`Process`] record.
///
/// The engine holds at most one process at a time; planning and recording
/// a second run overwrites the record of the first.
#[derive(Debug, Clone, PartialEq, Eq)]
pub struct ShellEngine {
    pub config: ShellAction,
    pub process: Option<Process>,
}

impl ShellEngine {
    /// A fresh engine that has never run.
    pub fn new(config: ShellAction) -> (r: Self)
        ensures
            r.config == config,
            r.process is None,
    {
        ShellEngine { config, process: None }
    }

    /// Pure precondition check: the configured command must be non-empty.
    /// This is the only validation rule.
    pub fn validate(&self) -> (r: Result<bool, EngineError>)
        ensures
            self.config.command@.len() > 0 <==> r is Ok,
            r is Ok ==> r == Ok::<bool, EngineError>(true),
            r is Err ==> (r matches Err(EngineError::ShellError(m)) && m@ == "command is empty"@),
    {
        if self.config.command.as_str().is_empty() {
            Err(EngineError::ShellError("command is empty".to_owned()))
        } else {
            Ok(true)
        }
    }

    /// Re-validates, then lays out one run of the configured action inside
    /// the given scratch directory: a fresh identity, the resolved
    /// interpreter, the two capture file names, and the pre-copy source.
    ///
    /// A failed validation short-circuits before any resource is named, so
    /// an empty command leads to no scratch content and no capture files.
    pub fn plan_run(&self, scratch_dir: String) -> (r: Result<RunPlan, EngineError>)
        ensures
            self.config.command@.len() > 0 <==> r is Ok,
            r matches Ok(plan) ==> plan.wf_for(self.config, scratch_dir@),
            r is Err ==> (r matches Err(EngineError::ShellError(m)) && m@ == "command is empty"@),
    {
        match self.validate() {
            Err(e) => Err(e),
            Ok(_) => {
                let uuid = fresh_identity();
                let interpreter = match &self.config.executor {
                    None => "/bin/sh".to_owned(),
                    Some(v) => v.clone(),
                };
                let copy_from = match &self.config.cwd {
                    None => None,
                    Some(v) => Some(v.clone()),
                };
                let stdout_path = capture_file_path(scratch_dir.as_str(), uuid.as_str(), "_stdout");
                let stderr_path = capture_file_path(scratch_dir.as_str(), uuid.as_str(), "_stderr");
                let command = self.config.command.clone();
                let args = self.config.args.clone();
                proof {
                    assert(args@.map_values(|a: String| a@) =~= self.config.args@.map_values(
                        |a: String| a@,
                    ));
                }
                Ok(
                    RunPlan {
                        uuid,
                        interpreter,
                        scratch_dir,
                        copy_from,
                        stdout_path,
                        stderr_path,
                        command,
                        args,
                    },
                )
            },
        }
    }

    /// Records the spawned unit once the caller has carried out `plan`:
    /// the process takes the plan's identity, runs detached in the plan's
    /// scratch directory under the reported process identifier, and both
    /// output streams still sit in the plan's capture files.
    pub fn record_spawn(&mut self, plan: &RunPlan, pid: u32, status: ExitStatus)
        ensures
            final(self).config == old(self).config,
            final(self).process matches Some(p) && {
                &&& p.uuid@ == plan.uuid@
                &&& p.env.directory@ == plan.scratch_dir@
                &&& p.env.attached == false
                &&& p.env.pid == Some(pid)
                &&& p.state.status == status
                &&& p.state.stdin is None
                &&& (p.state.stdout matches Some(Captured::Pending(path)) && path@
                    == plan.stdout_path@)
                &&& (p.state.stderr matches Some(Captured::Pending(path)) && path@
                    == plan.stderr_path@)
            },
    {
        let env = ExecEnv {
            directory: plan.scratch_dir.clone(),
            attached: false,
            pid: Some(pid),
        };
        let state = ProcessState {
            status,
            stdin: None,
            stdout: Some(Captured::Pending(plan.stdout_path.clone())),
            stderr: Some(Captured::Pending(plan.stderr_path.clone())),
        };
        self.process = Some(Process { uuid: plan.uuid.clone(), env, state });
    }

    /// Consolidates the capture files' contents into memory: both output
    /// streams move from their path-valued representation to the given
    /// texts. Fails only on an engine whose process has never run, which
    /// leaves the engine unchanged.
    pub fn read_status(&mut self, stdout_text: String, stderr_text: String) -> (r: Result<
        (),
        EngineError,
    >)
        ensures
            final(self).config == old(self).config,
            old(self).process is None ==> r == Err::<(), EngineError>(
                EngineError::ShellProcessHasNotRunError,
            ) && final(self).process is None,
            old(self).process matches Some(p) ==> r is Ok && (final(self).process matches Some(q)
                && {
                &&& q.uuid == p.uuid
                &&& q.env == p.env
                &&& q.state.status == p.state.status
                &&& q.state.stdin == p.state.stdin
                &&& q.state.stdout == Some(Captured::Ready(stdout_text))
                &&& q.state.stderr == Some(Captured::Ready(stderr_text))
            }),
    {
        let cur = self.process.take();
        match cur {
            None => Err(EngineError::ShellProcessHasNotRunError),
            Some(p) => {
                let state = ProcessState {
                    status: p.state.status,
                    stdin: p.state.stdin,
                    stdout: Some(Captured::Ready(stdout_text)),
                    stderr: Some(Captured::Ready(stderr_text)),
                };
                self.process = Some(Process { uuid: p.uuid, env: p.env, state });
                Ok(())
            },
        }
    }

    /// Names the two capture files of the recorded run, the ones created
    /// under the run's identity in its scratch directory; deleting both
    /// completes the clean step, after which referencing them is an error.
    /// Fails only on an engine whose process has never run.
    pub fn clean(&self) -> (r: Result<(String, String), EngineError>)
        ensures
            self.process is None ==> r == Err::<(String, String), EngineError>(
                EngineError::ShellProcessHasNotRunError,
            ),
            self.process matches Some(p) ==> (r matches Ok(paths) && paths.0@
                == p.stdout_capture() && paths.1@ == p.stderr_capture()),
    {
        match &self.process {
            None => Err(EngineError::ShellProcessHasNotRunError),
            Some(p) => {
                let stdout_path = capture_file_path(
                    p.env.directory.as_str(),
                    p.uuid.as_str(),
                    "_stdout",
                );
                let stderr_path = capture_file_path(
                    p.env.directory.as_str(),
                    p.uuid.as_str(),
                    "_stderr",
                );
                Ok((stdout_path, stderr_path))
            },
        }
    }
}

impl Plugin for ShellEngine {
    open spec fn name_spec(&self) -> Seq<char> {
        "shell"@
    }

    fn name(&self) -> (r: &'static str) {
        "shell"
    }

    fn on_load(&mut self, _config: RuntimeConfig) {
    }

    fn on_unload(&self) {
    }
}

/// After a run was recorded from a well-formed plan, the clean step names
/// exactly the two capture files that the plan introduced for that run's
/// identity: nothing else is ever deleted, and after a successful deletion
/// no capture file of that identity remains.
pub proof fn lemma_clean_targets_recorded_captures(
    e: ShellEngine,
    plan: RunPlan,
    config: ShellAction,
    scratch: Seq<char>,
)
    requires
        plan.wf_for(config, scratch),
        e.process matches Some(p) && p.uuid@ == plan.uuid@ && p.env.directory@
            == plan.scratch_dir@,
    ensures
        e.process matches Some(p) && p.stdout_capture() == plan.stdout_path@
            && p.stderr_capture() == plan.stderr_path@,
{
}

} // verus!
