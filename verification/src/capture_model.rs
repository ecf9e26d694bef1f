//! Mathematical model of one capture attempt.
//!
//! A capture attempt is a clipboard transaction around a copy command: open
//! a clipboard session, take a snapshot of the clipboard's text, raise the
//! injection flag and submit the copy command, hold the flag for a moment,
//! lower it, let the focused application settle, read the clipboard, judge
//! what was read against the snapshot, write the snapshot back whatever was
//! read, and release the session.
//!
//! The model is a transition function from stage and event to stage and
//! action. Texts are sequences of characters.

use vstd::prelude::*;
use crate::codes::{INJECTION_HOLD_MS, SETTLE_MS};
use crate::injector::{copy_command, status_of, InjectionStatus, KeyEvent};
use crate::text::is_blank;

verus! {

/// What one capture attempt found.
pub enum Outcome {
    /// The clipboard held no text, or only whitespace.
    Empty,
    /// The clipboard still held the text of the snapshot.
    UnchangedFromBackup,
    /// The clipboard held a text that differs from the snapshot.
    NewText(Seq<char>),
    /// The clipboard could not be opened or read.
    ClipboardError(Seq<char>),
}

/// Judges what was read after the copy command against the snapshot.
pub open spec fn classify(snapshot: Option<Seq<char>>, read: Result<Seq<char>, Seq<char>>)
    -> Outcome {
    match read {
        Err(reason) => Outcome::ClipboardError(reason),
        Ok(text) => if is_blank(text) {
            Outcome::Empty
        } else if snapshot == Some(text) {
            Outcome::UnchangedFromBackup
        } else {
            Outcome::NewText(text)
        },
    }
}

/// The snapshot that a read of the clipboard gives. A clipboard without
/// text, or one that cannot be read, gives the absent snapshot: that is a
/// snapshot like any other, not an error.
pub open spec fn snapshot_of(read: Result<Seq<char>, Seq<char>>) -> Option<Seq<char>> {
    match read {
        Ok(text) => Some(text),
        Err(_) => None,
    }
}

/// The text that puts the clipboard back: the snapshot itself, or the empty
/// text, which clears the clipboard, where the snapshot held none.
pub open spec fn restore_text(snapshot: Option<Seq<char>>) -> Seq<char> {
    match snapshot {
        Some(text) => text,
        None => Seq::empty(),
    }
}

/// Whether the clipboard was written back.
#[derive(Clone, Copy, Debug, PartialEq, Eq, Structural)]
pub enum RestoreStatus {
    /// The clipboard was never opened, so there was nothing to put back.
    NotAttempted,
    /// The snapshot's text was written back.
    Restored,
    /// The snapshot was absent and the clipboard was cleared.
    Cleared,
    /// Writing the snapshot back failed.
    Failed,
}

/// Summary of a finished attempt.
pub struct ReportModel {
    pub outcome: Outcome,
    pub injection: Option<InjectionStatus>,
    pub restore: RestoreStatus,
}

/// What the surrounding program reports back after an action.
pub enum EventModel {
    Opened,
    OpenFailed(Seq<char>),
    TextRead(Seq<char>),
    ReadFailed(Seq<char>),
    KeysSubmitted(u32),
    Slept,
    TextWritten,
    WriteFailed(Seq<char>),
    Released,
}

/// What the surrounding program is asked to do next.
pub enum ActionModel {
    OpenClipboard,
    ReadClipboard,
    SubmitKeys(Seq<KeyEvent>),
    Sleep(u64),
    WriteClipboard(Seq<char>),
    ReleaseClipboard,
    Finish(ReportModel),
    /// The event does not belong to the current stage; nothing changed.
    Ignored,
}

/// Where a capture attempt stands, with what it has gathered so far.
pub enum StageModel {
    Opening,
    Snapshotting,
    Submitting { snapshot: Option<Seq<char>> },
    HoldingFlag { snapshot: Option<Seq<char>>, injection: InjectionStatus },
    Settling { snapshot: Option<Seq<char>>, injection: InjectionStatus },
    Reading { snapshot: Option<Seq<char>>, injection: InjectionStatus },
    Restoring { injection: InjectionStatus, outcome: Outcome, clearing: bool },
    Releasing { report: ReportModel },
    Done,
}

/// Whether the event is one that the stage waits for.
pub open spec fn fits(stage: StageModel, event: EventModel) -> bool {
    match stage {
        StageModel::Opening => event is Opened || event is OpenFailed,
        StageModel::Snapshotting => event is TextRead || event is ReadFailed,
        StageModel::Submitting { .. } => event is KeysSubmitted,
        StageModel::HoldingFlag { .. } => event is Slept,
        StageModel::Settling { .. } => event is Slept,
        StageModel::Reading { .. } => event is TextRead || event is ReadFailed,
        StageModel::Restoring { .. } => event is TextWritten || event is WriteFailed,
        StageModel::Releasing { .. } => event is Released,
        StageModel::Done => false,
    }
}

/// The stage after an event. An event that does not fit leaves the stage as
/// it is.
pub open spec fn next_stage(stage: StageModel, event: EventModel) -> StageModel {
    match stage {
        StageModel::Opening => match event {
            EventModel::Opened => StageModel::Snapshotting,
            EventModel::OpenFailed(_) => StageModel::Done,
            _ => stage,
        },
        StageModel::Snapshotting => match event {
            EventModel::TextRead(text) => StageModel::Submitting { snapshot: snapshot_of(Ok(text)) },
            EventModel::ReadFailed(reason) => StageModel::Submitting {
                snapshot: snapshot_of(Err(reason)),
            },
            _ => stage,
        },
        StageModel::Submitting { snapshot } => match event {
            EventModel::KeysSubmitted(accepted) => StageModel::HoldingFlag {
                snapshot,
                injection: status_of(accepted),
            },
            _ => stage,
        },
        StageModel::HoldingFlag { snapshot, injection } => match event {
            EventModel::Slept => StageModel::Settling { snapshot, injection },
            _ => stage,
        },
        StageModel::Settling { snapshot, injection } => match event {
            EventModel::Slept => StageModel::Reading { snapshot, injection },
            _ => stage,
        },
        StageModel::Reading { snapshot, injection } => match event {
            EventModel::TextRead(text) => StageModel::Restoring {
                injection,
                outcome: classify(snapshot, Ok(text)),
                clearing: snapshot is None,
            },
            EventModel::ReadFailed(reason) => StageModel::Restoring {
                injection,
                outcome: classify(snapshot, Err(reason)),
                clearing: snapshot is None,
            },
            _ => stage,
        },
        StageModel::Restoring { injection, outcome, clearing } => match event {
            EventModel::TextWritten => StageModel::Releasing {
                report: ReportModel {
                    outcome,
                    injection: Some(injection),
                    restore: if clearing {
                        RestoreStatus::Cleared
                    } else {
                        RestoreStatus::Restored
                    },
                },
            },
            EventModel::WriteFailed(_) => StageModel::Releasing {
                report: ReportModel {
                    outcome,
                    injection: Some(injection),
                    restore: RestoreStatus::Failed,
                },
            },
            _ => stage,
        },
        StageModel::Releasing { .. } => match event {
            EventModel::Released => StageModel::Done,
            _ => stage,
        },
        StageModel::Done => stage,
    }
}

/// The action that an event calls for.
pub open spec fn next_action(stage: StageModel, event: EventModel) -> ActionModel {
    match stage {
        StageModel::Opening => match event {
            EventModel::Opened => ActionModel::ReadClipboard,
            EventModel::OpenFailed(reason) => ActionModel::Finish(
                ReportModel {
                    outcome: Outcome::ClipboardError(reason),
                    injection: None,
                    restore: RestoreStatus::NotAttempted,
                },
            ),
            _ => ActionModel::Ignored,
        },
        StageModel::Snapshotting => match event {
            EventModel::TextRead(_) => ActionModel::SubmitKeys(copy_command()),
            EventModel::ReadFailed(_) => ActionModel::SubmitKeys(copy_command()),
            _ => ActionModel::Ignored,
        },
        StageModel::Submitting { .. } => match event {
            EventModel::KeysSubmitted(_) => ActionModel::Sleep(INJECTION_HOLD_MS),
            _ => ActionModel::Ignored,
        },
        StageModel::HoldingFlag { .. } => match event {
            EventModel::Slept => ActionModel::Sleep(SETTLE_MS),
            _ => ActionModel::Ignored,
        },
        StageModel::Settling { .. } => match event {
            EventModel::Slept => ActionModel::ReadClipboard,
            _ => ActionModel::Ignored,
        },
        StageModel::Reading { snapshot, .. } => match event {
            EventModel::TextRead(_) => ActionModel::WriteClipboard(restore_text(snapshot)),
            EventModel::ReadFailed(_) => ActionModel::WriteClipboard(restore_text(snapshot)),
            _ => ActionModel::Ignored,
        },
        StageModel::Restoring { .. } => match event {
            EventModel::TextWritten => ActionModel::ReleaseClipboard,
            EventModel::WriteFailed(_) => ActionModel::ReleaseClipboard,
            _ => ActionModel::Ignored,
        },
        StageModel::Releasing { report } => match event {
            EventModel::Released => ActionModel::Finish(report),
            _ => ActionModel::Ignored,
        },
        StageModel::Done => ActionModel::Ignored,
    }
}

/// The stages in which the copy command is under way: from the moment the
/// batch is handed out until the hold after the submission is over.
pub open spec fn injecting(stage: StageModel) -> bool {
    stage is Submitting || stage is HoldingFlag
}

/// The injection flag after an event: raised when the snapshot has been
/// taken, lowered when the hold is over, untouched otherwise.
pub open spec fn next_flag(stage: StageModel, event: EventModel, flag: bool) -> bool {
    if stage is Snapshotting && fits(stage, event) {
        true
    } else if stage is HoldingFlag && fits(stage, event) {
        false
    } else {
        flag
    }
}

} // verus!
