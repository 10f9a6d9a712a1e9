//! Running a pattern through the Fabric executable: where the executable is
//! found, and what a finished run amounts to.

use crate::error::{decimal, decimal_text, Error, ErrorV};
use crate::loader::{find_first_existing, first_existing, CandidateDir};
use std::path::PathBuf;
use vstd::prelude::*;
use vstd::string::StringExecFns;

verus! {

/// How a run of the Fabric executable ended.
#[derive(Debug)]
pub enum ExecutionOutcome {
    /// The process could not be started.
    SpawnFailed(String),
    /// The content could not be written to the process.
    WriteFailed(String),
    /// The content could not be flushed to the process.
    FlushFailed(String),
    /// The process did not end in time.
    TimedOut,
    /// Waiting for the process failed.
    WaitFailed(String),
    /// The process ended.
    Exited { success: bool, status: String, stdout: String, stderr: String },
}

/// The mathematical model of an [`ExecutionOutcome`].
pub enum OutcomeV {
    SpawnFailed(Seq<char>),
    WriteFailed(Seq<char>),
    FlushFailed(Seq<char>),
    TimedOut,
    WaitFailed(Seq<char>),
    Exited { success: bool, status: Seq<char>, stdout: Seq<char>, stderr: Seq<char> },
}

impl View for ExecutionOutcome {
    type V = OutcomeV;

    open spec fn view(&self) -> OutcomeV {
        match self {
            ExecutionOutcome::SpawnFailed(e) => OutcomeV::SpawnFailed(e@),
            ExecutionOutcome::WriteFailed(e) => OutcomeV::WriteFailed(e@),
            ExecutionOutcome::FlushFailed(e) => OutcomeV::FlushFailed(e@),
            ExecutionOutcome::TimedOut => OutcomeV::TimedOut,
            ExecutionOutcome::WaitFailed(e) => OutcomeV::WaitFailed(e@),
            ExecutionOutcome::Exited { success, status, stdout, stderr } => OutcomeV::Exited {
                success: *success,
                status: status@,
                stdout: stdout@,
                stderr: stderr@,
            },
        }
    }
}

/// What is said of a run that yields no output; `None` for a run that
/// succeeded.
pub open spec fn failure_text(outcome: OutcomeV, timeout_secs: nat) -> Option<Seq<char>> {
    match outcome {
        OutcomeV::SpawnFailed(e) => Some("Failed to spawn fabric process: "@ + e),
        OutcomeV::WriteFailed(e) => Some("Failed to write stdin: "@ + e),
        OutcomeV::FlushFailed(e) => Some("Failed to flush stdin: "@ + e),
        OutcomeV::TimedOut => Some(
            "Execution timeout after "@ + decimal_text(timeout_secs) + " seconds"@,
        ),
        OutcomeV::WaitFailed(e) => Some("Failed to wait for output: "@ + e),
        OutcomeV::Exited { success, status, stdout, stderr } => if success {
            None
        } else {
            Some("Exit code: "@ + status + ", stderr: "@ + stderr)
        },
    }
}

/// What a run of `pattern` amounts to: its output, or the failure.
pub open spec fn execution_result(pattern: Seq<char>, outcome: OutcomeV, timeout_secs: nat) -> Result<
    Seq<char>,
    ErrorV,
> {
    match failure_text(outcome, timeout_secs) {
        Some(message) => Err(ErrorV::PatternExecutionFailed { pattern, message }),
        None => Ok(outcome->stdout),
    }
}

/// The failure to find the Fabric executable.
pub open spec fn fabric_not_found() -> ErrorV {
    ErrorV::ConfigError(
        "Fabric CLI not found. Please install fabric or set fabric_path in config"@,
    )
}

/// Runs patterns through the Fabric executable.
pub struct PatternExecutor {
    fabric_path: PathBuf,
    timeout_secs: u64,
}

impl PatternExecutor {
    /// Where the executable is.
    pub closed spec fn path(&self) -> PathBuf {
        self.fabric_path
    }

    /// After how many seconds a run is given up.
    pub closed spec fn timeout(&self) -> u64 {
        self.timeout_secs
    }

    /// Picks the executable: the one found on `PATH`, else the first of the
    /// usual places at which it exists.
    pub fn find_fabric_binary(on_path: Option<PathBuf>, candidates: &Vec<CandidateDir>) -> (r:
        Result<PathBuf, Error>)
        ensures
            match r {
                Ok(path) => match on_path {
                    Some(p) => path == p,
                    None => first_existing(candidates@) matches Some(i) && path
                        == candidates@[i].path,
                },
                Err(e) => on_path is None && first_existing(candidates@) is None && e@
                    == fabric_not_found(),
            },
    {
        match on_path {
            Some(path) => Ok(path),
            None => match find_first_existing(candidates) {
                Some(i) => Ok(candidates[i].path.clone()),
                None => Err(
                    Error::ConfigError(
                        String::from_str(
                            "Fabric CLI not found. Please install fabric or set fabric_path in config",
                        ),
                    ),
                ),
            },
        }
    }

    /// An executor for the executable that a search found.
    ///
    /// Fails when the search found none.
    pub fn new(
        on_path: Option<PathBuf>,
        candidates: &Vec<CandidateDir>,
        timeout_secs: u64,
    ) -> (r: Result<PatternExecutor, Error>)
        ensures
            match r {
                Ok(executor) => executor.timeout() == timeout_secs && match on_path {
                    Some(p) => executor.path() == p,
                    None => first_existing(candidates@) matches Some(i) && executor.path()
                        == candidates@[i].path,
                },
                Err(e) => on_path is None && first_existing(candidates@) is None && e@
                    == fabric_not_found(),
            },
    {
        match PatternExecutor::find_fabric_binary(on_path, candidates) {
            Ok(fabric_path) => Ok(PatternExecutor { fabric_path, timeout_secs }),
            Err(e) => Err(e),
        }
    }

    /// An executor for the executable at `fabric_path`.
    pub fn with_path(fabric_path: PathBuf, timeout_secs: u64) -> (r: PatternExecutor)
        ensures
            r.path() == fabric_path,
            r.timeout() == timeout_secs,
    {
        PatternExecutor { fabric_path, timeout_secs }
    }

    /// Where the executable is.
    pub fn fabric_path(&self) -> (r: &PathBuf)
        ensures
            *r == self.path(),
    {
        &self.fabric_path
    }

    /// After how many seconds a run is given up.
    pub fn timeout_secs(&self) -> (r: u64)
        ensures
            r == self.timeout(),
    {
        self.timeout_secs
    }

    /// Says what a finished run of `pattern_name` amounts to.
    ///
    /// A run that ended with success yields what it wrote. A run that could
    /// not be started, fed or awaited, that took too long or that ended
    /// without success is a failure of its own kind.
    pub fn execute(&self, pattern_name: &str, outcome: ExecutionOutcome) -> (r: Result<
        String,
        Error,
    >)
        ensures
            match r {
                Ok(output) => execution_result(pattern_name@, outcome@, self.timeout() as nat)
                    == Ok::<Seq<char>, ErrorV>(output@),
                Err(e) => execution_result(pattern_name@, outcome@, self.timeout() as nat)
                    == Err::<Seq<char>, ErrorV>(e@),
            },
    {
        let message = match outcome {
            ExecutionOutcome::SpawnFailed(e) => {
                let mut m = String::from_str("Failed to spawn fabric process: ");
                m.append(e.as_str());
                m
            },
            ExecutionOutcome::WriteFailed(e) => {
                let mut m = String::from_str("Failed to write stdin: ");
                m.append(e.as_str());
                m
            },
            ExecutionOutcome::FlushFailed(e) => {
                let mut m = String::from_str("Failed to flush stdin: ");
                m.append(e.as_str());
                m
            },
            ExecutionOutcome::TimedOut => {
                let mut m = String::from_str("Execution timeout after ");
                m.append(decimal(self.timeout_secs).as_str());
                m.append(" seconds");
                m
            },
            ExecutionOutcome::WaitFailed(e) => {
                let mut m = String::from_str("Failed to wait for output: ");
                m.append(e.as_str());
                m
            },
            ExecutionOutcome::Exited { success, status, stdout, stderr } => {
                if success {
                    return Ok(stdout);
                }
                let mut m = String::from_str("Exit code: ");
                m.append(status.as_str());
                m.append(", stderr: ");
                m.append(stderr.as_str());
                m
            },
        };
        Err(Error::pattern_execution_failed(pattern_name, message.as_str()))
    }
}

} // verus!
