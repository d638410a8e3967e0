use vstd::prelude::*;
use vstd::string::StringExecFns;

verus! {

/// Terminal status of a spawned execution unit.
#[derive(Debug, Clone, PartialEq, Eq)]
pub enum ExitStatus {
    /// The process exited with code zero.
    Success,
    /// The process exited with the given non-zero code.
    Failure(i32),
    /// The process was terminated by a signal before it could exit.
    Signaled,
}

/// One captured output stream, in its two-phase representation: while the
/// process streams, the stream lives in a capture file on disk; after the
/// post-run read-back it is consolidated into memory.
#[derive(Debug, Clone, PartialEq, Eq)]
pub enum Captured {
    /// The path of the capture file still holding the stream.
    Pending(String),
    /// The stream's text, read back into memory.
    Ready(String),
}

/// Where and how one spawned execution unit runs.
#[derive(Debug, Clone, PartialEq, Eq)]
pub struct ExecEnv {
    /// The isolated scratch directory the unit runs in; never the caller's
    /// own working directory.
    pub directory: String,
    /// Whether the unit is still connected to its originating session.
    /// Only `false` is currently produced; `true` is reserved for future
    /// interactive use.
    pub attached: bool,
    /// Operating-system process identifier, known once the unit is spawned.
    pub pid: Option<u32>,
}

/// Captured input/output and terminal status of one spawned unit.
#[derive(Debug, Clone, PartialEq, Eq)]
pub struct ProcessState {
    pub status: ExitStatus,
    pub stdin: Option<String>,
    pub stdout: Option<Captured>,
    pub stderr: Option<Captured>,
}

/// Passive data describing one spawned execution unit. Owned and mutated
/// by the engine that spawned it.
#[derive(Debug, Clone, PartialEq, Eq)]
pub struct Process {
    /// Fresh random identity namespacing this run's capture files.
    pub uuid: String,
    pub env: ExecEnv,
    pub state: ProcessState,
}

/// The name of the capture file for one stream of one run:
/// `<dir>/<uuid><suffix>`.
pub open spec fn capture_path(dir: Seq<char>, uuid: Seq<char>, suffix: Seq<char>) -> Seq<char> {
    dir + "/"@ + uuid + suffix
}

impl Process {
    /// The capture file that received this unit's standard output.
    pub open spec fn stdout_capture(&self) -> Seq<char> {
        capture_path(self.env.directory@, self.uuid@, "_stdout"@)
    }

    /// The capture file that received this unit's standard error.
    pub open spec fn stderr_capture(&self) -> Seq<char> {
        capture_path(self.env.directory@, self.uuid@, "_stderr"@)
    }
}

/// Builds the name of a capture file: `<dir>/<uuid><suffix>`.
pub fn capture_file_path(dir: &str, uuid: &str, suffix: &str) -> (r: String)
    ensures
        r@ == capture_path(dir@, uuid@, suffix@),
{
    let mut r = String::new();
    r.append(dir);
    r.append("/");
    r.append(uuid);
    r.append(suffix);
    proof {
        assert(r@ =~= capture_path(dir@, uuid@, suffix@));
    }
    r
}

} // verus!
