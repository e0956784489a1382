//! The terminal lifecycle discipline of the entry point: acquire the
//! terminal, run the main loop, and release the terminal exactly once on
//! every path out of the loop, error paths included. The terminal calls
//! themselves are input/output and live outside this crate; this module
//! holds the decisions between them, and proves the pairing.

use vstd::prelude::*;

use crate::app::{run_spec, App, AppError, IterationInput, LoopStatus};

verus! {

/// How one whole session came out.
#[derive(Clone, Copy, PartialEq, Eq, Structural, Debug)]
pub enum SessionOutcome {
    /// Acquiring the terminal failed; the loop never ran and no restore is
    /// owed.
    InitFailed,
    /// The scripted inputs ran out while the loop still wanted more; the
    /// loop never ended, so the restore was not reached yet.
    Blocked,
    /// The loop finished cleanly and the terminal was restored.
    Clean,
    /// The loop finished cleanly but restoring the terminal failed; that
    /// failure is the one reported.
    RestoreFailed,
    /// The loop aborted with this error. The restore was still attempted,
    /// and the loop's own error is the one reported whether or not the
    /// restore also failed.
    LoopFailed(AppError),
}

/// The record of one session: whether a terminal restore was attempted, how
/// the session ended, and the application state it left behind.
#[derive(Clone, Copy, PartialEq, Eq, Structural, Debug)]
pub struct SessionReport {
    pub restore_attempted: bool,
    pub outcome: SessionOutcome,
    pub state: App,
}

/// What the entry point does, given what the terminal would answer: a failed
/// init ends the session at once with no restore owed; after a successful
/// init the loop runs from a fresh state, and whenever it ends — cleanly or
/// with an error — exactly one restore follows.
pub open spec fn session_spec(
    init_ok: bool,
    inputs: Seq<IterationInput>,
    restore_ok: bool,
) -> SessionReport {
    if !init_ok {
        SessionReport {
            restore_attempted: false,
            outcome: SessionOutcome::InitFailed,
            state: App { exit: false },
        }
    } else {
        let (s2, st) = run_spec(App { exit: false }, inputs);
        match st {
            LoopStatus::Running => SessionReport {
                restore_attempted: false,
                outcome: SessionOutcome::Blocked,
                state: s2,
            },
            LoopStatus::Finished => SessionReport {
                restore_attempted: true,
                outcome: if restore_ok {
                    SessionOutcome::Clean
                } else {
                    SessionOutcome::RestoreFailed
                },
                state: s2,
            },
            LoopStatus::Failed(e) => SessionReport {
                restore_attempted: true,
                outcome: SessionOutcome::LoopFailed(e),
                state: s2,
            },
        }
    }
}

/// Runs the entry point's decisions on scripted terminal answers: whether
/// init succeeds, what each loop iteration is handed, and whether the
/// restore succeeds. Exactly `session_spec`.
pub fn run_session(init_ok: bool, inputs: &Vec<IterationInput>, restore_ok: bool) -> (rep:
    SessionReport)
    ensures
        rep == session_spec(init_ok, inputs@, restore_ok),
{
    if !init_ok {
        return SessionReport {
            restore_attempted: false,
            outcome: SessionOutcome::InitFailed,
            state: App { exit: false },
        };
    }
    let mut state = App { exit: false };
    let st = state.run(inputs);
    match st {
        LoopStatus::Running => SessionReport {
            restore_attempted: false,
            outcome: SessionOutcome::Blocked,
            state,
        },
        LoopStatus::Finished => SessionReport {
            restore_attempted: true,
            outcome: if restore_ok {
                SessionOutcome::Clean
            } else {
                SessionOutcome::RestoreFailed
            },
            state,
        },
        LoopStatus::Failed(e) => SessionReport {
            restore_attempted: true,
            outcome: SessionOutcome::LoopFailed(e),
            state,
        },
    }
}

/// Lifecycle pairing: a failed init owes no restore, and after a successful
/// init, every path on which the loop ends — a clean finish or an aborting
/// error — is followed by exactly one restore attempt. Only a session whose
/// scripted inputs ran out mid-loop (one that never came out of the loop)
/// has not restored yet.
pub proof fn lemma_lifecycle_pairing(init_ok: bool, inputs: Seq<IterationInput>, restore_ok: bool)
    ensures
        !init_ok ==> !session_spec(init_ok, inputs, restore_ok).restore_attempted,
        init_ok && !(session_spec(init_ok, inputs, restore_ok).outcome is Blocked)
            ==> session_spec(init_ok, inputs, restore_ok).restore_attempted,
        session_spec(init_ok, inputs, restore_ok).outcome is Blocked
            ==> run_spec(App { exit: false }, inputs).1 == LoopStatus::Running,
{
}

/// What the process reports when it ends.
#[derive(Clone, Copy, PartialEq, Eq, Structural, Debug)]
pub enum ExitDisposition {
    /// Both the loop and the restore succeeded: exit cleanly.
    Success,
    /// The loop failed: report the loop's error. It takes priority over a
    /// restore failure, which the caller may surface separately but must
    /// not let displace the loop's own error.
    ReportLoopError,
    /// The loop succeeded but the restore failed: report the restore error.
    ReportRestoreError,
}

/// Decides what the process reports once the loop has ended and the restore
/// has been attempted: the loop's own error always wins; a restore failure
/// is reported only when the loop itself succeeded.
pub fn resolve_exit(loop_ok: bool, restore_ok: bool) -> (d: ExitDisposition)
    ensures
        !loop_ok ==> d == ExitDisposition::ReportLoopError,
        loop_ok && !restore_ok ==> d == ExitDisposition::ReportRestoreError,
        loop_ok && restore_ok ==> d == ExitDisposition::Success,
{
    if !loop_ok {
        ExitDisposition::ReportLoopError
    } else if !restore_ok {
        ExitDisposition::ReportRestoreError
    } else {
        ExitDisposition::Success
    }
}

} // verus!
