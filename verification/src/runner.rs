//! Execution wrapper: classifying the outcome of running a produced binary.

use vstd::prelude::*;

verus! {

/// Outcome of running a produced binary.
///
/// A non-zero exit code is a normal outcome to report, not an error; a
/// binary that could not be launched at all is reported as `SpawnError`,
/// kept distinct from any exit code.
#[derive(Clone, Copy, Debug, PartialEq, Eq, Structural)]
pub enum RunOutcome {
    Exited { exit_code: i32 },
    SpawnError,
}

/// Classifies what the operating system reported for a child process.
///
/// `spawned` says whether the binary could be launched at all; `exit_code`
/// is the code the process exited with, where it was launched and ran to
/// completion. The caller performs the spawn and wait and hands the plain
/// results here.
pub fn interpret_spawn(spawned: bool, exit_code: Option<i32>) -> (r: RunOutcome)
    requires
        spawned ==> exit_code is Some,
    ensures
        spawned ==> (exit_code matches Some(c) && r == RunOutcome::Exited { exit_code: c }),
        !spawned ==> r == RunOutcome::SpawnError,
{
    if spawned {
        RunOutcome::Exited { exit_code: exit_code.unwrap() }
    } else {
        RunOutcome::SpawnError
    }
}

} // verus!
