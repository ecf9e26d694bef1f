//! One capture attempt, as a machine that the surrounding program drives.
//!
//! The program performs each action it is handed (open, read, write or
//! release the clipboard, submit keys, sleep) and reports the outcome as an
//! event. All ordering and every decision is made here.

use vstd::prelude::*;
use crate::capture_model::{
    classify, next_action, next_flag, next_stage, restore_text, snapshot_of, ActionModel,
    EventModel, Outcome, ReportModel, RestoreStatus, StageModel,
};
use crate::codes::{INJECTION_HOLD_MS, SETTLE_MS};
use crate::injector::{
    inject_copy_command, injection_status, release_injection, InjectionStatus, KeyEvent,
};
use crate::state::EngineState;
use crate::text::{text_is_blank, text_of};

verus! {

/// The characters of a clipboard read: the text, or the reason of a failure.
pub open spec fn read_of(read: Result<String, String>) -> Result<Seq<char>, Seq<char>> {
    match read {
        Ok(t) => Ok(t@),
        Err(e) => Err(e@),
    }
}

/// The clipboard's text as it was before the copy command. It belongs to
/// one attempt and is used up when the clipboard is put back.
#[derive(Clone, Debug, PartialEq, Eq)]
pub struct ClipboardSnapshot {
    /// The text; `None` where the clipboard held none.
    pub text: Option<String>,
}

impl View for ClipboardSnapshot {
    type V = Option<Seq<char>>;

    open spec fn view(&self) -> Option<Seq<char>> {
        text_of(self.text)
    }
}

impl ClipboardSnapshot {
    /// Takes the snapshot from a read of the clipboard. A read that failed
    /// gives the absent snapshot.
    pub fn take(read: Result<String, String>) -> (snapshot: ClipboardSnapshot)
        ensures
            snapshot@ == snapshot_of(read_of(read)),
    {
        match read {
            Ok(text) => ClipboardSnapshot { text: Some(text) },
            Err(_) => ClipboardSnapshot { text: None },
        }
    }

    /// The text that puts the clipboard back: the snapshot's text, or the
    /// empty text, which clears the clipboard, where the snapshot is absent.
    pub fn into_restore_text(self) -> (text: String)
        ensures
            text@ == restore_text(self@),
    {
        match self.text {
            Some(t) => t,
            None => String::new(),
        }
    }
}

/// What one capture attempt found. Only `NewText` is a capture; the other
/// results are diagnostic.
#[derive(Clone, Debug, PartialEq, Eq)]
pub enum CaptureResult {
    Empty,
    UnchangedFromBackup,
    NewText(String),
    ClipboardError(String),
}

impl View for CaptureResult {
    type V = Outcome;

    open spec fn view(&self) -> Outcome {
        match self {
            CaptureResult::Empty => Outcome::Empty,
            CaptureResult::UnchangedFromBackup => Outcome::UnchangedFromBackup,
            CaptureResult::NewText(t) => Outcome::NewText(t@),
            CaptureResult::ClipboardError(e) => Outcome::ClipboardError(e@),
        }
    }
}

impl CaptureResult {
    /// The text to surface to the user: the new text, and nothing for any
    /// other result.
    pub fn into_capture(self) -> (text: Option<String>)
        ensures
            text_of(text) == match self@ {
                Outcome::NewText(t) => Some(t),
                _ => None,
            },
    {
        match self {
            CaptureResult::NewText(t) => Some(t),
            _ => None,
        }
    }
}

/// Summary of a finished attempt.
#[derive(Clone, Debug, PartialEq, Eq)]
pub struct CaptureReport {
    pub result: CaptureResult,
    /// How the copy command went; `None` where it was never submitted.
    pub injection: Option<InjectionStatus>,
    pub restore: RestoreStatus,
}

impl View for CaptureReport {
    type V = ReportModel;

    open spec fn view(&self) -> ReportModel {
        ReportModel { outcome: self.result@, injection: self.injection, restore: self.restore }
    }
}

/// What the surrounding program reports back after an action. A failure
/// carries its reason as text.
#[derive(Clone, Debug, PartialEq, Eq)]
pub enum CaptureEvent {
    Opened,
    OpenFailed(String),
    TextRead(String),
    ReadFailed(String),
    KeysSubmitted(u32),
    Slept,
    TextWritten,
    WriteFailed(String),
    Released,
}

impl View for CaptureEvent {
    type V = EventModel;

    open spec fn view(&self) -> EventModel {
        match self {
            CaptureEvent::Opened => EventModel::Opened,
            CaptureEvent::OpenFailed(e) => EventModel::OpenFailed(e@),
            CaptureEvent::TextRead(t) => EventModel::TextRead(t@),
            CaptureEvent::ReadFailed(e) => EventModel::ReadFailed(e@),
            CaptureEvent::KeysSubmitted(n) => EventModel::KeysSubmitted(*n),
            CaptureEvent::Slept => EventModel::Slept,
            CaptureEvent::TextWritten => EventModel::TextWritten,
            CaptureEvent::WriteFailed(e) => EventModel::WriteFailed(e@),
            CaptureEvent::Released => EventModel::Released,
        }
    }
}

/// What the surrounding program is asked to do next.
#[derive(Clone, Debug, PartialEq, Eq)]
pub enum CaptureAction {
    /// Open a clipboard session.
    OpenClipboard,
    /// Read the clipboard's text.
    ReadClipboard,
    /// Submit these events to the input subsystem as one batch.
    SubmitKeys(Vec<KeyEvent>),
    /// Sleep for so many milliseconds.
    Sleep(u64),
    /// Write this text to the clipboard; the empty text clears it.
    WriteClipboard(String),
    /// Release the clipboard session.
    ReleaseClipboard,
    /// The attempt is over.
    Finish(CaptureReport),
    /// The event does not belong to the current stage; nothing changed.
    Ignored,
}

impl View for CaptureAction {
    type V = ActionModel;

    open spec fn view(&self) -> ActionModel {
        match self {
            CaptureAction::OpenClipboard => ActionModel::OpenClipboard,
            CaptureAction::ReadClipboard => ActionModel::ReadClipboard,
            CaptureAction::SubmitKeys(batch) => ActionModel::SubmitKeys(batch@),
            CaptureAction::Sleep(ms) => ActionModel::Sleep(*ms),
            CaptureAction::WriteClipboard(t) => ActionModel::WriteClipboard(t@),
            CaptureAction::ReleaseClipboard => ActionModel::ReleaseClipboard,
            CaptureAction::Finish(report) => ActionModel::Finish(report@),
            CaptureAction::Ignored => ActionModel::Ignored,
        }
    }
}

/// Where a capture attempt stands, with what it has gathered so far.
#[derive(Clone, Debug, PartialEq, Eq)]
pub enum CaptureWorkflow {
    Opening,
    Snapshotting,
    Submitting { snapshot: ClipboardSnapshot },
    HoldingFlag { snapshot: ClipboardSnapshot, injection: InjectionStatus },
    Settling { snapshot: ClipboardSnapshot, injection: InjectionStatus },
    Reading { snapshot: ClipboardSnapshot, injection: InjectionStatus },
    Restoring { injection: InjectionStatus, result: CaptureResult, clearing: bool },
    Releasing { report: CaptureReport },
    Done,
}

impl View for CaptureWorkflow {
    type V = StageModel;

    open spec fn view(&self) -> StageModel {
        match self {
            CaptureWorkflow::Opening => StageModel::Opening,
            CaptureWorkflow::Snapshotting => StageModel::Snapshotting,
            CaptureWorkflow::Submitting { snapshot } => StageModel::Submitting {
                snapshot: snapshot@,
            },
            CaptureWorkflow::HoldingFlag { snapshot, injection } => StageModel::HoldingFlag {
                snapshot: snapshot@,
                injection: *injection,
            },
            CaptureWorkflow::Settling { snapshot, injection } => StageModel::Settling {
                snapshot: snapshot@,
                injection: *injection,
            },
            CaptureWorkflow::Reading { snapshot, injection } => StageModel::Reading {
                snapshot: snapshot@,
                injection: *injection,
            },
            CaptureWorkflow::Restoring { injection, result, clearing } => StageModel::Restoring {
                injection: *injection,
                outcome: result@,
                clearing: *clearing,
            },
            CaptureWorkflow::Releasing { report } => StageModel::Releasing { report: report@ },
            CaptureWorkflow::Done => StageModel::Done,
        }
    }
}

/// Judges what was read after the copy command against the snapshot: a
/// failed read is an error, blank text is `Empty`, the snapshot's own text
/// is `UnchangedFromBackup`, anything else is new text.
pub fn classify_capture(snapshot: &ClipboardSnapshot, read: Result<String, String>) -> (result:
    CaptureResult)
    ensures
        result@ == classify(snapshot@, read_of(read)),
{
    match read {
        Err(reason) => CaptureResult::ClipboardError(reason),
        Ok(text) => {
            if text_is_blank(text.as_str()) {
                CaptureResult::Empty
            } else {
                let same = match &snapshot.text {
                    Some(backup) => *backup == text,
                    None => false,
                };
                if same {
                    CaptureResult::UnchangedFromBackup
                } else {
                    CaptureResult::NewText(text)
                }
            }
        },
    }
}

/// Begins one capture attempt. The first thing to do is to open the
/// clipboard.
pub fn capture_once() -> (begun: (CaptureWorkflow, CaptureAction))
    ensures
        begun.0@ == StageModel::Opening,
        begun.1@ == ActionModel::OpenClipboard,
{
    (CaptureWorkflow::Opening, CaptureAction::OpenClipboard)
}

impl CaptureWorkflow {
    /// Whether the attempt is over.
    pub fn is_done(&self) -> (done: bool)
        ensures
            done == (self@ is Done),
    {
        match self {
            CaptureWorkflow::Done => true,
            _ => false,
        }
    }

    /// Takes the outcome of the last action and says what to do next.
    ///
    /// The injection flag is raised when the snapshot has been taken, just
    /// before the copy command is handed out, and lowered when the hold
    /// after the submission is over. Nothing else of the shared state is
    /// touched. An event that the stage does not wait for changes nothing
    /// and is answered with `Ignored`.
    pub fn step(self, state: &mut EngineState, event: CaptureEvent) -> (next: (
        CaptureWorkflow,
        CaptureAction,
    ))
        ensures
            next.0@ == next_stage(self@, event@),
            next.1@ == next_action(self@, event@),
            *final(state) == (EngineState {
                simulating_injection: next_flag(self@, event@, old(state).simulating_injection),
                ..*old(state)
            }),
    {
        match self {
            CaptureWorkflow::Opening => match event {
                CaptureEvent::Opened => (CaptureWorkflow::Snapshotting, CaptureAction::ReadClipboard),
                CaptureEvent::OpenFailed(reason) => (
                    CaptureWorkflow::Done,
                    CaptureAction::Finish(
                        CaptureReport {
                            result: CaptureResult::ClipboardError(reason),
                            injection: None,
                            restore: RestoreStatus::NotAttempted,
                        },
                    ),
                ),
                _ => (CaptureWorkflow::Opening, CaptureAction::Ignored),
            },
            CaptureWorkflow::Snapshotting => match event {
                CaptureEvent::TextRead(text) => (
                    CaptureWorkflow::Submitting { snapshot: ClipboardSnapshot::take(Ok(text)) },
                    CaptureAction::SubmitKeys(inject_copy_command(state)),
                ),
                CaptureEvent::ReadFailed(reason) => (
                    CaptureWorkflow::Submitting { snapshot: ClipboardSnapshot::take(Err(reason)) },
                    CaptureAction::SubmitKeys(inject_copy_command(state)),
                ),
                _ => (CaptureWorkflow::Snapshotting, CaptureAction::Ignored),
            },
            CaptureWorkflow::Submitting { snapshot } => match event {
                CaptureEvent::KeysSubmitted(accepted) => (
                    CaptureWorkflow::HoldingFlag { snapshot, injection: injection_status(accepted) },
                    CaptureAction::Sleep(INJECTION_HOLD_MS),
                ),
                _ => (CaptureWorkflow::Submitting { snapshot }, CaptureAction::Ignored),
            },
            CaptureWorkflow::HoldingFlag { snapshot, injection } => match event {
                CaptureEvent::Slept => {
                    release_injection(state);
                    (CaptureWorkflow::Settling { snapshot, injection }, CaptureAction::Sleep(SETTLE_MS))
                },
                _ => (CaptureWorkflow::HoldingFlag { snapshot, injection }, CaptureAction::Ignored),
            },
            CaptureWorkflow::Settling { snapshot, injection } => match event {
                CaptureEvent::Slept => (
                    CaptureWorkflow::Reading { snapshot, injection },
                    CaptureAction::ReadClipboard,
                ),
                _ => (CaptureWorkflow::Settling { snapshot, injection }, CaptureAction::Ignored),
            },
            CaptureWorkflow::Reading { snapshot, injection } => match event {
                CaptureEvent::TextRead(text) => {
                    let result = classify_capture(&snapshot, Ok(text));
                    let clearing = snapshot.text.is_none();
                    (
                        CaptureWorkflow::Restoring { injection, result, clearing },
                        CaptureAction::WriteClipboard(snapshot.into_restore_text()),
                    )
                },
                CaptureEvent::ReadFailed(reason) => {
                    let result = classify_capture(&snapshot, Err(reason));
                    let clearing = snapshot.text.is_none();
                    (
                        CaptureWorkflow::Restoring { injection, result, clearing },
                        CaptureAction::WriteClipboard(snapshot.into_restore_text()),
                    )
                },
                _ => (CaptureWorkflow::Reading { snapshot, injection }, CaptureAction::Ignored),
            },
            CaptureWorkflow::Restoring { injection, result, clearing } => match event {
                CaptureEvent::TextWritten => (
                    CaptureWorkflow::Releasing {
                        report: CaptureReport {
                            result,
                            injection: Some(injection),
                            restore: if clearing {
                                RestoreStatus::Cleared
                            } else {
                                RestoreStatus::Restored
                            },
                        },
                    },
                    CaptureAction::ReleaseClipboard,
                ),
                CaptureEvent::WriteFailed(_) => (
                    CaptureWorkflow::Releasing {
                        report: CaptureReport {
                            result,
                            injection: Some(injection),
                            restore: RestoreStatus::Failed,
                        },
                    },
                    CaptureAction::ReleaseClipboard,
                ),
                _ => (
                    CaptureWorkflow::Restoring { injection, result, clearing },
                    CaptureAction::Ignored,
                ),
            },
            CaptureWorkflow::Releasing { report } => match event {
                CaptureEvent::Released => (CaptureWorkflow::Done, CaptureAction::Finish(report)),
                _ => (CaptureWorkflow::Releasing { report }, CaptureAction::Ignored),
            },
            CaptureWorkflow::Done => (CaptureWorkflow::Done, CaptureAction::Ignored),
        }
    }
}

} // verus!
