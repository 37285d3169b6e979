//! The command-executor boundary: the sole sanctioned channel through which
//! an action touches the external world.
//!
//! The core only *composes* commands and consumes their outcomes; actually
//! spawning a process (in its own process group, stdin closed, run to
//! completion) is the unverified driver's job.

use vstd::prelude::*;

verus! {

/// An external program invocation: program name plus argument vector.
///
/// Environment, working directory and stdio policy are fixed by the driver
/// (stdin closed, own process group); an action only chooses program and
/// arguments, so those are all the core carries.
#[derive(Debug, Clone, PartialEq, Eq)]
pub struct Command {
    pub program: String,
    pub args: Vec<String>,
}

impl View for Command {
    type V = (Seq<char>, Seq<Seq<char>>);

    open spec fn view(&self) -> Self::V {
        (self.program@, self.args.deep_view())
    }
}

/// Structured failure of one external command: the invocation that failed,
/// its exit code (`None` when the process was terminated by a signal), and
/// the captured diagnostic output.
#[derive(Debug, Clone, PartialEq, Eq)]
pub struct CommandFailure {
    pub program: String,
    pub args: Vec<String>,
    pub exit_code: Option<i32>,
    pub output: String,
}

/// What one run of an external command came to. A single invocation is
/// atomic from the core's point of view: it either succeeded or failed with
/// a structured report; the executor never retries.
#[derive(Debug, Clone, PartialEq, Eq)]
pub enum CommandOutcome {
    Success,
    Failed(CommandFailure),
}

} // verus!
