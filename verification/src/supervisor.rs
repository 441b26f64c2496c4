//! Watching the Meilisearch child process: when it is gone, the wrapper
//! must exit so that the container is restarted.

use vstd::prelude::*;

verus! {

/// What one periodic look at the child process found.
#[derive(Debug, Clone, Copy, PartialEq, Eq, Structural)]
pub enum ChildCheck {
    /// The lock guarding the process handle is poisoned.
    LockPoisoned,
    /// The process has exited.
    Exited,
    /// The process is still running.
    Running,
    /// Its status could not be read.
    CheckFailed,
}

/// What the watcher does next.
#[derive(Debug, Clone, Copy, PartialEq, Eq, Structural)]
pub enum SupervisorAction {
    /// Sleep, then look again.
    KeepWatching,
    /// Exit the whole wrapper with this status.
    ExitWrapper(i32),
}

/// The wrapper exits, with status 1, exactly when Meilisearch is gone or
/// can no longer be reached through its handle; otherwise it keeps watching.
pub open spec fn spec_supervise(check: ChildCheck) -> SupervisorAction {
    match check {
        ChildCheck::LockPoisoned | ChildCheck::Exited => SupervisorAction::ExitWrapper(1),
        ChildCheck::Running | ChildCheck::CheckFailed => SupervisorAction::KeepWatching,
    }
}

/// Decides what to do after one look at the child process.
pub fn supervise(check: ChildCheck) -> (r: SupervisorAction)
    ensures
        r == spec_supervise(check),
{
    match check {
        ChildCheck::LockPoisoned => SupervisorAction::ExitWrapper(1),
        ChildCheck::Exited => SupervisorAction::ExitWrapper(1),
        ChildCheck::Running => SupervisorAction::KeepWatching,
        ChildCheck::CheckFailed => SupervisorAction::KeepWatching,
    }
}


/// The wrapper exits, always with status 1, exactly when the process has
/// exited or its lock is poisoned.
pub proof fn lemma_exit_only_when_gone(check: ChildCheck)
    ensures
        (spec_supervise(check) is ExitWrapper) <==> (check == ChildCheck::Exited || check
            == ChildCheck::LockPoisoned),
        spec_supervise(check) is ExitWrapper ==> spec_supervise(check) == SupervisorAction::ExitWrapper(1),
{
}

} // verus!
