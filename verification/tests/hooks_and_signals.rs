use selection_capture::codes::{
    CTRL_BREAK_EVENT, CTRL_CLOSE_EVENT, CTRL_C_EVENT, CTRL_LOGOFF_EVENT, CTRL_SHUTDOWN_EVENT,
    SHUTDOWN_GRACE_MS, VK_C, VK_ESCAPE, WM_CAPTURE_REQUESTED, WM_KEYDOWN, WM_QUIT,
};
use selection_capture::hooks::{low_level_keyboard_proc, reads_key_code, HookOutcome, PostedMessage};
use selection_capture::signal::{console_ctrl_handler, SignalOutcome};
use selection_capture::state::EngineState;

const WM_KEYUP: u32 = 0x0101;

#[test]
fn escape_press_is_consumed_and_asks_for_exit() {
    let mut state = EngineState::new(9);
    let out = low_level_keyboard_proc(&mut state, 0, WM_KEYDOWN, VK_ESCAPE as u32);
    assert_eq!(out, HookOutcome { consumed: true, posted: Some(PostedMessage::Quit) });
    assert!(state.should_exit);
    assert_eq!(state.owning_thread_id, 9);
    assert_eq!(state.last_trigger_time, None);
    assert!(!state.simulating_injection);
}

#[test]
fn other_key_press_is_forwarded() {
    let mut state = EngineState::new(9);
    let out = low_level_keyboard_proc(&mut state, 0, WM_KEYDOWN, VK_C as u32);
    assert_eq!(out, HookOutcome { consumed: false, posted: None });
    assert!(!state.should_exit);
}

#[test]
fn escape_release_is_forwarded() {
    let mut state = EngineState::new(9);
    let out = low_level_keyboard_proc(&mut state, 0, WM_KEYUP, VK_ESCAPE as u32);
    assert_eq!(out, HookOutcome { consumed: false, posted: None });
    assert!(!state.should_exit);
}

#[test]
fn keyboard_event_with_negative_code_is_forwarded() {
    let mut state = EngineState::new(9);
    let out = low_level_keyboard_proc(&mut state, -1, WM_KEYDOWN, VK_ESCAPE as u32);
    assert_eq!(out, HookOutcome { consumed: false, posted: None });
    assert!(!state.should_exit);
}

#[test]
fn key_code_is_read_only_for_key_presses() {
    assert!(reads_key_code(0, WM_KEYDOWN));
    assert!(reads_key_code(3, WM_KEYDOWN));
    assert!(!reads_key_code(-1, WM_KEYDOWN));
    assert!(!reads_key_code(0, WM_KEYUP));
}

#[test]
fn posted_messages_travel_under_their_numbers() {
    assert_eq!(PostedMessage::CaptureRequested.message_id(), WM_CAPTURE_REQUESTED);
    assert_eq!(PostedMessage::CaptureRequested.message_id(), 0x0401);
    assert_eq!(PostedMessage::Quit.message_id(), WM_QUIT);
}

#[test]
fn interrupt_is_swallowed_while_injecting() {
    for ctrl in [CTRL_C_EVENT, CTRL_BREAK_EVENT] {
        let mut state = EngineState::new(9);
        state.simulating_injection = true;
        let out = console_ctrl_handler(&mut state, ctrl);
        assert_eq!(out, SignalOutcome { handled: true, post_quit: false, grace_ms: 0 });
        assert!(!state.should_exit);
        assert!(state.simulating_injection);
    }
}

#[test]
fn interrupt_outside_injection_starts_the_exit() {
    for ctrl in [CTRL_C_EVENT, CTRL_BREAK_EVENT] {
        let mut state = EngineState::new(9);
        let out = console_ctrl_handler(&mut state, ctrl);
        assert_eq!(out, SignalOutcome { handled: true, post_quit: true, grace_ms: 0 });
        assert!(state.should_exit);
    }
}

#[test]
fn same_signal_before_and_after_the_flag_is_lowered() {
    let mut state = EngineState::new(9);
    state.simulating_injection = true;
    let during = console_ctrl_handler(&mut state, CTRL_C_EVENT);
    assert!(during.handled);
    assert!(!state.should_exit);
    state.simulating_injection = false;
    let after = console_ctrl_handler(&mut state, CTRL_C_EVENT);
    assert!(after.handled);
    assert!(after.post_quit);
    assert!(state.should_exit);
}

#[test]
fn closing_signals_always_raise_the_exit_flag() {
    for ctrl in [CTRL_CLOSE_EVENT, CTRL_LOGOFF_EVENT, CTRL_SHUTDOWN_EVENT] {
        for simulating in [false, true] {
            let mut state = EngineState::new(9);
            state.simulating_injection = simulating;
            let out = console_ctrl_handler(&mut state, ctrl);
            assert_eq!(
                out,
                SignalOutcome { handled: true, post_quit: false, grace_ms: SHUTDOWN_GRACE_MS }
            );
            assert_eq!(out.grace_ms, 100);
            assert!(state.should_exit);
            assert_eq!(state.simulating_injection, simulating);
        }
    }
}

#[test]
fn unknown_signal_is_left_to_the_default_handler() {
    for ctrl in [3u32, 4, 7, 1000] {
        let mut state = EngineState::new(9);
        let out = console_ctrl_handler(&mut state, ctrl);
        assert_eq!(out, SignalOutcome { handled: false, post_quit: false, grace_ms: 0 });
        assert!(!state.should_exit);
    }
}

#[test]
fn exit_flag_once_raised_stays_raised() {
    let mut state = EngineState::new(9);
    state.should_exit = true;
    state.simulating_injection = true;
    let _ = console_ctrl_handler(&mut state, CTRL_C_EVENT);
    assert!(state.should_exit);
    let _ = low_level_keyboard_proc(&mut state, 0, WM_KEYDOWN, VK_C as u32);
    assert!(state.should_exit);
}
