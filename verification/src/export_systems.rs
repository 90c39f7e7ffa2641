//! Offline export: an asynchronous, pollable multi-tick operation with
//! explicit terminal states.

use vstd::prelude::*;

use crate::components::StartExport;
use crate::session::Session;

verus! {

/// A running export job, identified by the progress handle the engine
/// returned when the job was started.
#[derive(Clone, Copy, Debug, PartialEq, Eq, Structural)]
pub struct ExportInProgress {
    pub handle: u64,
}

/// Terminal failure marker of an export, with the engine's reason.
#[derive(Debug, Clone, PartialEq, Eq)]
pub struct ExportFailed {
    pub error: String,
}

/// Where a session's export stands.  `Complete` and `Failed` are terminal.
#[derive(Debug, Clone, PartialEq, Eq)]
pub enum ExportPhase {
    Idle,
    InProgress(ExportInProgress),
    Complete,
    Failed(ExportFailed),
}

/// What polling the engine's progress handle yields on one tick.  `Running`
/// carries the progress in thousandths; `Pending` means the job has not
/// begun writing yet and is treated like `Running`.
#[derive(Debug, Clone, PartialEq, Eq)]
pub enum ExportStatus {
    Pending,
    Running(u32),
    Complete,
    Failed(String),
}

/// The export phase after one poll: a running job transitions exactly on
/// `Complete` or `Failed`, and a terminal phase absorbs every status.
pub open spec fn export_poll_transition(phase: ExportPhase, status: ExportStatus) -> ExportPhase {
    match phase {
        ExportPhase::InProgress(_) => match status {
            ExportStatus::Complete => ExportPhase::Complete,
            ExportStatus::Failed(error) => ExportPhase::Failed(ExportFailed { error }),
            ExportStatus::Pending => phase,
            ExportStatus::Running(_) => phase,
        },
        _ => phase,
    }
}

/// Consumes a session's start-export intent once the engine has started the
/// job and handed back `handle`; the session then carries a running export.
pub fn export_start_system(s: &mut Session, handle: u64) -> (request: StartExport)
    requires
        old(s).start_export is Some,
    ensures
        request == old(s).start_export->0,
        *final(s) == (Session {
            start_export: None,
            export: ExportPhase::InProgress(ExportInProgress { handle }),
            ..*old(s)
        }),
{
    let request = s.start_export.take().unwrap();
    s.export = ExportPhase::InProgress(ExportInProgress { handle });
    request
}

/// Applies one poll of the engine's progress handle to a session, per
/// [`export_poll_transition`].
pub fn export_poll_system(s: &mut Session, status: ExportStatus)
    ensures
        *final(s) == (Session {
            export: export_poll_transition(old(s).export, status),
            ..*old(s)
        }),
{
    match &s.export {
        ExportPhase::InProgress(_) => {
            match status {
                ExportStatus::Complete => {
                    s.export = ExportPhase::Complete;
                },
                ExportStatus::Failed(error) => {
                    s.export = ExportPhase::Failed(ExportFailed { error });
                },
                ExportStatus::Pending => {},
                ExportStatus::Running(_) => {},
            }
        },
        _ => {},
    }
}

/// A started export, polled each tick, reaches `Complete` without skipping
/// states: it stays in progress through `Pending` and `Running`, moves to a
/// terminal phase exactly when the poll is terminal, and a terminal phase
/// never changes again, whatever later polls yield.
pub proof fn lemma_export_lifecycle(handle: u64, status: ExportStatus)
    ensures
        export_poll_transition(
            ExportPhase::InProgress(ExportInProgress { handle }),
            ExportStatus::Pending,
        ) == ExportPhase::InProgress(ExportInProgress { handle }),
        forall|p: u32|
            export_poll_transition(
                ExportPhase::InProgress(ExportInProgress { handle }),
                ExportStatus::Running(p),
            ) == ExportPhase::InProgress(ExportInProgress { handle }),
        export_poll_transition(
            ExportPhase::InProgress(ExportInProgress { handle }),
            ExportStatus::Complete,
        ) == ExportPhase::Complete,
        export_poll_transition(ExportPhase::Complete, status) == ExportPhase::Complete,
        forall|e: ExportFailed|
            export_poll_transition(ExportPhase::Failed(e), status) == ExportPhase::Failed(e),
{
}

} // verus!
