//! What holds of every capture attempt.
//!
//! The clipboard laws are stated against a desk: a clipboard that does what
//! it is told, and a focused application that may or may not answer the copy
//! command.

use vstd::prelude::*;
use crate::capture_model::{
    classify, fits, injecting, next_action, next_flag, next_stage, restore_text, ActionModel,
    EventModel, Outcome, ReportModel, RestoreStatus, StageModel,
};
use crate::injector::{status_of, InjectionStatus};

verus! {

/// A clipboard holds a text or nothing. It never holds the empty text:
/// writing the empty text clears it.
pub open spec fn clipboard_valid(clipboard: Option<Seq<char>>) -> bool {
    clipboard matches Some(text) ==> text.len() > 0
}

/// The surroundings of a capture attempt.
pub struct Desk {
    /// What the clipboard holds.
    pub clipboard: Option<Seq<char>>,
    /// What the focused application puts on the clipboard when the copy
    /// command reaches it; `None` where it leaves the clipboard alone.
    pub copied: Option<Seq<char>>,
    /// How many events the input subsystem will report as accepted.
    pub accepted: u32,
    /// The reason given when the clipboard holds no text to read.
    pub nothing_to_read: Seq<char>,
    /// Why no clipboard session can be opened; `None` where one can.
    pub no_session: Option<Seq<char>>,
}

/// What the clipboard holds after a text was written to it.
pub open spec fn clipboard_after_write(text: Seq<char>) -> Option<Seq<char>> {
    if text.len() == 0 {
        None
    } else {
        Some(text)
    }
}

/// What the clipboard holds once the copy command has had its effect.
pub open spec fn clipboard_after_copy(desk: Desk) -> Option<Seq<char>> {
    match desk.copied {
        Some(text) => Some(text),
        None => desk.clipboard,
    }
}

/// What a read of the clipboard reports.
pub open spec fn read_result(desk: Desk) -> Result<Seq<char>, Seq<char>> {
    match desk.clipboard {
        Some(text) => Ok(text),
        None => Err(desk.nothing_to_read),
    }
}

/// How the desk answers an action, and what it looks like afterwards. The
/// last action of an attempt asks nothing of the desk.
pub open spec fn respond(desk: Desk, action: ActionModel) -> Option<(Desk, EventModel)> {
    match action {
        ActionModel::OpenClipboard => match desk.no_session {
            Some(reason) => Some((desk, EventModel::OpenFailed(reason))),
            None => Some((desk, EventModel::Opened)),
        },
        ActionModel::ReadClipboard => match read_result(desk) {
            Ok(text) => Some((desk, EventModel::TextRead(text))),
            Err(reason) => Some((desk, EventModel::ReadFailed(reason))),
        },
        ActionModel::SubmitKeys(_) => Some(
            (
                Desk { clipboard: clipboard_after_copy(desk), ..desk },
                EventModel::KeysSubmitted(desk.accepted),
            ),
        ),
        ActionModel::Sleep(_) => Some((desk, EventModel::Slept)),
        ActionModel::WriteClipboard(text) => Some(
            (Desk { clipboard: clipboard_after_write(text), ..desk }, EventModel::TextWritten),
        ),
        ActionModel::ReleaseClipboard => Some((desk, EventModel::Released)),
        ActionModel::Finish(_) => None,
        ActionModel::Ignored => None,
    }
}

/// Drives an attempt against the desk for at most `fuel` actions, or until
/// the attempt finishes. Gives the last action and the desk as it is then.
pub open spec fn run(stage: StageModel, action: ActionModel, desk: Desk, fuel: nat) -> (
    ActionModel,
    Desk,
)
    decreases fuel,
{
    if fuel == 0 {
        (action, desk)
    } else {
        match respond(desk, action) {
            Some((desk_after, event)) => run(
                next_stage(stage, event),
                next_action(stage, event),
                desk_after,
                (fuel - 1) as nat,
            ),
            None => (action, desk),
        }
    }
}

/// Number of actions between the start of an attempt and its report.
pub open spec fn attempt_length() -> nat {
    8
}

/// The report that an attempt against the desk is to end with: without a
/// session an error and nothing else; with one, the judgement of what the
/// clipboard held after the copy command against what it held before.
pub open spec fn expected_report(desk: Desk) -> ReportModel {
    match desk.no_session {
        Some(reason) => ReportModel {
            outcome: Outcome::ClipboardError(reason),
            injection: None,
            restore: RestoreStatus::NotAttempted,
        },
        None => ReportModel {
            outcome: classify(
                desk.clipboard,
                read_result(Desk { clipboard: clipboard_after_copy(desk), ..desk }),
            ),
            injection: Some(status_of(desk.accepted)),
            restore: if desk.clipboard is None {
                RestoreStatus::Cleared
            } else {
                RestoreStatus::Restored
            },
        },
    }
}

/// Restore law. Whatever the clipboard held before an attempt, whatever the
/// focused application did with the copy command and however many events
/// were accepted, the attempt ends with its report and the clipboard holds
/// what it held before: when nothing new was found, and also when new text
/// was found.
pub proof fn lemma_capture_restores_clipboard(desk: Desk)
    requires
        clipboard_valid(desk.clipboard),
    ensures
        ({
            let (last, after) = run(
                StageModel::Opening,
                ActionModel::OpenClipboard,
                desk,
                attempt_length(),
            );
            &&& last == ActionModel::Finish(expected_report(desk))
            &&& after.clipboard == desk.clipboard
        }),
{
    reveal_with_fuel(run, 9);
    let snapshot = desk.clipboard;
    assert(clipboard_after_write(restore_text(snapshot)) == snapshot);
}

/// An attempt on an empty clipboard with no event accepted leaves the
/// clipboard empty.
pub proof fn lemma_empty_clipboard_stays_empty(desk: Desk)
    requires
        desk.clipboard is None,
        desk.accepted == 0,
    ensures
        run(
            StageModel::Opening,
            ActionModel::OpenClipboard,
            desk,
            attempt_length(),
        ).1.clipboard is None,
{
    lemma_capture_restores_clipboard(desk);
}

/// Whatever the read after the copy command brings, a failure included,
/// the next action writes the snapshot back.
pub proof fn lemma_restore_follows_every_read(
    snapshot: Option<Seq<char>>,
    injection: InjectionStatus,
    event: EventModel,
)
    requires
        event is TextRead || event is ReadFailed,
    ensures
        next_action(StageModel::Reading { snapshot, injection }, event)
            == ActionModel::WriteClipboard(restore_text(snapshot)),
        next_stage(StageModel::Reading { snapshot, injection }, event) is Restoring,
{
}

/// Release law. Once the snapshot is written back, or could not be, the
/// session is released before the attempt reports.
pub proof fn lemma_session_is_released(
    injection: InjectionStatus,
    outcome: Outcome,
    clearing: bool,
    event: EventModel,
)
    requires
        event is TextWritten || event is WriteFailed,
    ensures
        next_action(StageModel::Restoring { injection, outcome, clearing }, event)
            == ActionModel::ReleaseClipboard,
        next_stage(StageModel::Restoring { injection, outcome, clearing }, event) is Releasing,
        next_action(
            next_stage(StageModel::Restoring { injection, outcome, clearing }, event),
            EventModel::Released,
        ) is Finish,
{
}

/// Only text that differs from the snapshot and is not blank is reported as
/// new.
pub proof fn lemma_new_text_differs_from_snapshot(
    snapshot: Option<Seq<char>>,
    read: Result<Seq<char>, Seq<char>>,
)
    ensures
        classify(snapshot, read) matches Outcome::NewText(text) ==> read == Ok::<
            Seq<char>,
            Seq<char>,
        >(text) && snapshot != Some(text) && !crate::text::is_blank(text),
{
}

/// Flag law. If the injection flag is raised exactly in the stages in which
/// the copy command is under way, then so it is after any event.
pub proof fn lemma_flag_tracks_injection(stage: StageModel, event: EventModel, flag: bool)
    requires
        flag == injecting(stage),
    ensures
        next_flag(stage, event, flag) == injecting(next_stage(stage, event)),
{
}

/// An event that the stage does not wait for changes nothing.
pub proof fn lemma_unfit_event_is_ignored(stage: StageModel, event: EventModel, flag: bool)
    requires
        !fits(stage, event),
    ensures
        next_stage(stage, event) == stage,
        next_action(stage, event) == ActionModel::Ignored,
        next_flag(stage, event, flag) == flag,
{
}

} // verus!
