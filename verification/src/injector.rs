//! The synthetic copy command.

use vstd::prelude::*;
use crate::codes::{VK_C, VK_LCONTROL};
use crate::state::EngineState;

verus! {

/// One synthetic keyboard event: a key going down or coming up.
#[derive(Clone, Copy, Debug, PartialEq, Eq, Structural)]
pub struct KeyEvent {
    pub virtual_key: u16,
    pub key_up: bool,
}

/// Number of events in the copy command.
pub const COPY_COMMAND_LEN: u32 = 4;

/// The copy command: modifier down, letter down, letter up, modifier up.
pub open spec fn copy_command() -> Seq<KeyEvent> {
    seq![
        KeyEvent { virtual_key: VK_LCONTROL, key_up: false },
        KeyEvent { virtual_key: VK_C, key_up: false },
        KeyEvent { virtual_key: VK_C, key_up: true },
        KeyEvent { virtual_key: VK_LCONTROL, key_up: true },
    ]
}

/// Builds the batch that is submitted to the input subsystem in one piece.
pub fn copy_command_events() -> (batch: Vec<KeyEvent>)
    ensures
        batch@ == copy_command(),
{
    let mut batch: Vec<KeyEvent> = Vec::new();
    batch.push(KeyEvent { virtual_key: VK_LCONTROL, key_up: false });
    batch.push(KeyEvent { virtual_key: VK_C, key_up: false });
    batch.push(KeyEvent { virtual_key: VK_C, key_up: true });
    batch.push(KeyEvent { virtual_key: VK_LCONTROL, key_up: true });
    batch
}

/// Begins the copy command: raises the injection flag and hands out the
/// batch to submit. The flag is up before anything is submitted, so that a
/// control signal caused by the batch finds it raised.
pub fn inject_copy_command(state: &mut EngineState) -> (batch: Vec<KeyEvent>)
    ensures
        batch@ == copy_command(),
        *final(state) == (EngineState { simulating_injection: true, ..*old(state) }),
{
    state.simulating_injection = true;
    copy_command_events()
}

/// Ends the copy command: lowers the injection flag. Called when the hold
/// after the submission is over.
pub fn release_injection(state: &mut EngineState)
    ensures
        *final(state) == (EngineState { simulating_injection: false, ..*old(state) }),
{
    state.simulating_injection = false;
}

/// How a submission went.
#[derive(Clone, Copy, Debug, PartialEq, Eq, Structural)]
pub enum InjectionStatus {
    /// Every event of the batch was accepted.
    Complete,
    /// Fewer events were accepted than were sent. This is not fatal: the
    /// clipboard is read all the same.
    Partial { accepted: u32 },
}

/// The status that belongs to a count of accepted events.
pub open spec fn status_of(accepted: u32) -> InjectionStatus {
    if accepted < COPY_COMMAND_LEN {
        InjectionStatus::Partial { accepted }
    } else {
        InjectionStatus::Complete
    }
}

/// Judges what the input subsystem reported for the copy command.
pub fn injection_status(accepted: u32) -> (status: InjectionStatus)
    ensures
        status == status_of(accepted),
{
    if accepted < COPY_COMMAND_LEN {
        InjectionStatus::Partial { accepted }
    } else {
        InjectionStatus::Complete
    }
}

} // verus!
