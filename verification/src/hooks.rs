//! Decisions of the two low-level input callbacks.
//!
//! A callback never blocks and never does the capture itself: it classifies
//! the event, updates the shared state and says which message, if any, is to
//! be posted to the owning thread.

use vstd::prelude::*;
use crate::codes::{VK_ESCAPE, WM_CAPTURE_REQUESTED, WM_KEYDOWN, WM_LBUTTONUP, WM_QUIT};
use crate::state::{accepts, after_offer, EngineState};

verus! {

/// A message for the queue of the owning thread.
#[derive(Clone, Copy, Debug, PartialEq, Eq, Structural)]
pub enum PostedMessage {
    /// A capture attempt is wanted; the message carries no payload.
    CaptureRequested,
    /// The message loop is to end.
    Quit,
}

impl PostedMessage {
    /// The message number under which this message travels.
    pub open spec fn spec_message_id(self) -> u32 {
        match self {
            PostedMessage::CaptureRequested => WM_CAPTURE_REQUESTED,
            PostedMessage::Quit => WM_QUIT,
        }
    }

    /// The message number under which this message travels.
    #[verifier::when_used_as_spec(spec_message_id)]
    pub fn message_id(self) -> (id: u32)
        ensures
            id == self.spec_message_id(),
    {
        match self {
            PostedMessage::CaptureRequested => WM_CAPTURE_REQUESTED,
            PostedMessage::Quit => WM_QUIT,
        }
    }
}

/// What a callback decided. An event that was not consumed is forwarded to
/// the next hook in the chain; a consumed one is hidden from everyone else.
#[derive(Clone, Copy, Debug, PartialEq, Eq, Structural)]
pub struct HookOutcome {
    pub consumed: bool,
    pub posted: Option<PostedMessage>,
}

/// A pointer event that releases the primary button and may be processed.
pub open spec fn is_primary_release(n_code: i32, message: u32) -> bool {
    n_code >= 0 && message == WM_LBUTTONUP
}

/// A keyboard event that presses a key and may be processed. Only for such
/// an event does the callback look at the key code.
pub open spec fn is_key_press(n_code: i32, message: u32) -> bool {
    n_code >= 0 && message == WM_KEYDOWN
}

/// A key press of Escape.
pub open spec fn is_escape_press(n_code: i32, message: u32, vk_code: u32) -> bool {
    is_key_press(n_code, message) && vk_code == VK_ESCAPE
}

/// Whether the keyboard callback needs the key code of this event.
pub fn reads_key_code(n_code: i32, message: u32) -> (b: bool)
    ensures
        b == is_key_press(n_code, message),
{
    n_code >= 0 && message == WM_KEYDOWN
}

/// Pointer callback. A release of the primary button is offered to the
/// debounce rule at time `now`; an accepted one posts a capture request.
/// Every pointer event is forwarded, and nothing but the trigger timestamp
/// changes.
pub fn low_level_mouse_proc(state: &mut EngineState, n_code: i32, message: u32, now: u64) -> (out:
    HookOutcome)
    ensures
        !out.consumed,
        out.posted == if is_primary_release(n_code, message) && accepts(
            old(state).last_trigger_time,
            now,
        ) {
            Some(PostedMessage::CaptureRequested)
        } else {
            None
        },
        *final(state) == (EngineState {
            last_trigger_time: if is_primary_release(n_code, message) {
                after_offer(old(state).last_trigger_time, now)
            } else {
                old(state).last_trigger_time
            },
            ..*old(state)
        }),
{
    let mut posted: Option<PostedMessage> = None;
    if n_code >= 0 && message == WM_LBUTTONUP {
        if state.accept(now) {
            posted = Some(PostedMessage::CaptureRequested);
        }
    }
    HookOutcome { consumed: false, posted }
}

/// Keyboard callback. A press of Escape asks the engine to exit, posts a
/// quit message and is hidden from other applications; every other event
/// is forwarded and leaves the state alone.
pub fn low_level_keyboard_proc(
    state: &mut EngineState,
    n_code: i32,
    message: u32,
    vk_code: u32,
) -> (out: HookOutcome)
    ensures
        out.consumed == is_escape_press(n_code, message, vk_code),
        out.posted == if is_escape_press(n_code, message, vk_code) {
            Some(PostedMessage::Quit)
        } else {
            None
        },
        *final(state) == (EngineState {
            should_exit: old(state).should_exit || is_escape_press(n_code, message, vk_code),
            ..*old(state)
        }),
{
    if reads_key_code(n_code, message) && vk_code == VK_ESCAPE as u32 {
        state.should_exit = true;
        HookOutcome { consumed: true, posted: Some(PostedMessage::Quit) }
    } else {
        HookOutcome { consumed: false, posted: None }
    }
}

} // verus!
