//! What one command run reports back.
//!
//! The command is spawned through a system shell outside this library; the
//! result is handed back here as plain values. A spawn that could not happen
//! at all is deliberately downgraded to a value — empty streams and a fixed
//! failing status — instead of an error, so the loop never branches on an
//! exception at this boundary: a command that could not start looks exactly
//! like a command that ran, failed, and printed nothing.
use vstd::prelude::*;

verus! {

/// The status a run reports when the command could not be spawned at all.
pub const SPAWN_FAILURE_STATUS: i32 = 1;

/// The captured outcome of one command run: the full standard-output and
/// standard-error byte streams and the raw exit status.
pub struct ExecutionResult {
    /// Everything the command wrote to its standard output.
    pub stdout: Vec<u8>,
    /// Everything the command wrote to its standard error.
    pub stderr: Vec<u8>,
    /// The raw exit status the process ended with, or
    /// `SPAWN_FAILURE_STATUS` when it never started.
    pub status: i32,
}

/// The synthetic result standing for a spawn failure.
pub open spec fn is_spawn_failure(r: ExecutionResult) -> bool {
    &&& r.stdout@ == Seq::<u8>::empty()
    &&& r.stderr@ == Seq::<u8>::empty()
    &&& r.status == SPAWN_FAILURE_STATUS
}

impl ExecutionResult {
    /// The result of a run whose process was spawned and finished.
    pub fn completed(stdout: Vec<u8>, stderr: Vec<u8>, status: i32) -> (r: Self)
        ensures
            r.stdout@ == stdout@,
            r.stderr@ == stderr@,
            r.status == status,
    {
        ExecutionResult { stdout, stderr, status }
    }

    /// The result of a run whose process could not be spawned: empty streams
    /// and the fixed failing status, indistinguishable from a command that
    /// ran, failed with that status and printed nothing.
    pub fn spawn_failure() -> (r: Self)
        ensures
            is_spawn_failure(r),
    {
        let r = ExecutionResult { stdout: Vec::new(), stderr: Vec::new(), status: SPAWN_FAILURE_STATUS };
        proof {
            assert(r.stdout@ =~= Seq::<u8>::empty());
            assert(r.stderr@ =~= Seq::<u8>::empty());
        }
        r
    }
}

} // verus!
