//! Running a child process under a deadline: what to run, what it left
//! behind, and, poll by poll, whether to wait, kill it or collect it.
//!
//! Spawning, polling and killing the child are the caller's.

use vstd::prelude::*;

verus! {

/// A process to run: the program, its arguments and environment, what to
/// write to its standard input, and how long it may take. The environment
/// holds secrets, so the type has no `Debug`.
#[derive(Clone)]
pub struct ProcessSpec {
    pub program: String,
    pub args: Vec<String>,
    pub env: Vec<(String, String)>,
    pub stdin_bytes: Vec<u8>,
    pub timeout_ms: u64,
}

/// What a supervised process left behind.
#[derive(Debug, Clone)]
pub struct ProcessOutput {
    pub status_code: Option<i32>,
    pub stdout: String,
    pub stderr: String,
    pub timed_out: bool,
}

/// Why a supervised run failed: the child could not be started, or waiting
/// on it failed.
#[derive(Debug, Clone)]
pub enum ProcessError {
    Spawn(String),
    Wait(String),
}

/// What polling the child process found.
#[derive(Debug, Clone)]
pub enum ChildPoll {
    Exited,
    Running,
    Failed(String),
}

/// What the supervisor does next.
#[derive(Debug, Clone)]
pub enum SupervisorAction {
    /// The child exited: collect its output.
    Collect,
    /// The deadline passed: kill the child, wait for it, collect its
    /// output as timed out.
    KillTimedOut,
    /// Sleep briefly and poll again.
    Wait { sleep_ms: u64 },
    /// Waiting on the child failed.
    Fail(String),
}

/// The instant a run must end by.
pub fn supervision_deadline(started_ms: u64, timeout_ms: u64) -> (r: u64)
    ensures
        r == if started_ms + timeout_ms > u64::MAX { u64::MAX as int } else { started_ms + timeout_ms },
{
    if timeout_ms > u64::MAX - started_ms {
        u64::MAX
    } else {
        started_ms + timeout_ms
    }
}

/// One round of supervision: an exited child is collected; a running one
/// is killed once the deadline is reached, else polled again in 10 ms.
pub fn supervise(poll: &ChildPoll, now_ms: u64, deadline_ms: u64) -> (a: SupervisorAction)
    ensures
        match *poll {
            ChildPoll::Exited => a is Collect,
            ChildPoll::Running => if now_ms >= deadline_ms {
                a is KillTimedOut
            } else {
                a == SupervisorAction::Wait { sleep_ms: 10 }
            },
            ChildPoll::Failed(e) => a == SupervisorAction::Fail(e),
        },
{
    match poll {
        ChildPoll::Exited => SupervisorAction::Collect,
        ChildPoll::Running => if now_ms >= deadline_ms {
            SupervisorAction::KillTimedOut
        } else {
            SupervisorAction::Wait { sleep_ms: 10 }
        },
        ChildPoll::Failed(e) => SupervisorAction::Fail(e.clone()),
    }
}

} // verus!
