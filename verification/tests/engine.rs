use selection_capture::codes::{WM_CAPTURE_REQUESTED, WM_KEYDOWN, WM_QUIT};
use selection_capture::engine::{
    Engine, EngineAction, EngineEvent, EnginePhase, EngineStep, ExitReason, HookHandle,
    HookKind, HookRecord, InitializationFailure, RunReport,
};
use selection_capture::state::EngineState;

const KEYBOARD: HookHandle = HookHandle { raw: 0x1111 };
const POINTER: HookHandle = HookHandle { raw: 0x2222 };

fn pumping() -> (Engine, EngineState) {
    let mut engine = Engine::new();
    let mut state = EngineState::new(0);
    assert_eq!(engine.step(&mut state, EngineEvent::Start), EngineAction::InstallSignalHandler);
    assert_eq!(
        engine.step(&mut state, EngineEvent::SignalHandlerInstalled(true)),
        EngineAction::CaptureThreadId
    );
    assert_eq!(
        engine.step(&mut state, EngineEvent::ThreadIdCaptured(77)),
        EngineAction::InstallKeyboardHook
    );
    assert_eq!(
        engine.step(&mut state, EngineEvent::KeyboardHookInstalled(Some(KEYBOARD))),
        EngineAction::InstallPointerHook
    );
    assert_eq!(
        engine.step(&mut state, EngineEvent::PointerHookInstalled(Some(POINTER))),
        EngineAction::RetrieveMessage
    );
    (engine, state)
}

fn retrieved(message: u32) -> EngineEvent {
    EngineEvent::MessageRetrieved { status: 1, message }
}

#[test]
fn new_engine_is_idle() {
    let engine = Engine::new();
    assert_eq!(engine.phase(), EnginePhase::Idle);
    assert_eq!(engine.keyboard, HookRecord::NotInstalled);
    assert_eq!(engine.pointer, HookRecord::NotInstalled);
    assert_eq!(engine.exit, None);
}

#[test]
fn start_resets_the_shared_state() {
    let mut engine = Engine::new();
    let mut state = EngineState::new(5);
    state.should_exit = true;
    state.simulating_injection = true;
    state.last_trigger_time = Some(9);
    let action = engine.step(&mut state, EngineEvent::Start);
    assert_eq!(action, EngineAction::InstallSignalHandler);
    assert_eq!(engine.phase(), EnginePhase::HooksInstalling);
    assert_eq!(state, EngineState::new(0));
}

#[test]
fn installation_goes_signal_handler_thread_keyboard_pointer() {
    let (engine, state) = pumping();
    assert_eq!(engine.phase(), EnginePhase::Pumping);
    assert_eq!(engine.step, EngineStep::Retrieving);
    assert_eq!(engine.keyboard, HookRecord::Installed(KEYBOARD));
    assert_eq!(engine.pointer, HookRecord::Installed(POINTER));
    assert!(engine.signal_handler_installed);
    assert_eq!(state.owning_thread_id, 77);
}

#[test]
fn run_goes_on_without_a_signal_handler() {
    let mut engine = Engine::new();
    let mut state = EngineState::new(0);
    engine.step(&mut state, EngineEvent::Start);
    let action = engine.step(&mut state, EngineEvent::SignalHandlerInstalled(false));
    assert_eq!(action, EngineAction::CaptureThreadId);
    assert!(!engine.signal_handler_installed);
}

#[test]
fn missing_thread_identity_aborts_the_run() {
    let mut engine = Engine::new();
    let mut state = EngineState::new(0);
    engine.step(&mut state, EngineEvent::Start);
    engine.step(&mut state, EngineEvent::SignalHandlerInstalled(true));
    let action = engine.step(&mut state, EngineEvent::ThreadIdCaptured(0));
    assert_eq!(
        action,
        EngineAction::Report(RunReport {
            exit: Some(ExitReason::Initialization(InitializationFailure::ThreadIdUnavailable)),
            signal_handler_installed: true,
            keyboard: HookRecord::NotInstalled,
            pointer: HookRecord::NotInstalled,
        })
    );
    assert_eq!(engine.phase(), EnginePhase::HooksRemoved);
}

#[test]
fn failed_keyboard_hook_aborts_with_nothing_to_remove() {
    let mut engine = Engine::new();
    let mut state = EngineState::new(0);
    engine.step(&mut state, EngineEvent::Start);
    engine.step(&mut state, EngineEvent::SignalHandlerInstalled(true));
    engine.step(&mut state, EngineEvent::ThreadIdCaptured(77));
    let action = engine.step(&mut state, EngineEvent::KeyboardHookInstalled(None));
    assert_eq!(
        action,
        EngineAction::Report(RunReport {
            exit: Some(ExitReason::Initialization(InitializationFailure::KeyboardHookFailed)),
            signal_handler_installed: true,
            keyboard: HookRecord::NotInstalled,
            pointer: HookRecord::NotInstalled,
        })
    );
    assert_eq!(engine.step(&mut state, EngineEvent::Reported), EngineAction::Halt);
    assert_eq!(engine.phase(), EnginePhase::Stopped);
}

#[test]
fn failed_pointer_hook_removes_the_keyboard_hook_first() {
    let mut engine = Engine::new();
    let mut state = EngineState::new(0);
    engine.step(&mut state, EngineEvent::Start);
    engine.step(&mut state, EngineEvent::SignalHandlerInstalled(true));
    engine.step(&mut state, EngineEvent::ThreadIdCaptured(77));
    engine.step(&mut state, EngineEvent::KeyboardHookInstalled(Some(KEYBOARD)));
    let action = engine.step(&mut state, EngineEvent::PointerHookInstalled(None));
    assert_eq!(action, EngineAction::RemoveHook { kind: HookKind::Keyboard, handle: KEYBOARD });
    assert_eq!(engine.phase(), EnginePhase::Draining);
    let action = engine.step(&mut state, EngineEvent::KeyboardHookRemoved(true));
    assert_eq!(
        action,
        EngineAction::Report(RunReport {
            exit: Some(ExitReason::Initialization(InitializationFailure::PointerHookFailed)),
            signal_handler_installed: true,
            keyboard: HookRecord::Removed,
            pointer: HookRecord::NotInstalled,
        })
    );
}

#[test]
fn capture_request_runs_the_workflow_and_pumps_on() {
    let (mut engine, mut state) = pumping();
    let action = engine.step(&mut state, retrieved(WM_CAPTURE_REQUESTED));
    assert_eq!(action, EngineAction::RunCapture);
    assert_eq!(engine.step, EngineStep::Capturing);
    assert_eq!(engine.phase(), EnginePhase::Pumping);
    let action = engine.step(&mut state, EngineEvent::CaptureFinished);
    assert_eq!(action, EngineAction::RetrieveMessage);
    assert_eq!(engine.phase(), EnginePhase::Pumping);
}

#[test]
fn other_message_gets_the_default_handling() {
    let (mut engine, mut state) = pumping();
    let action = engine.step(&mut state, retrieved(WM_KEYDOWN));
    assert_eq!(action, EngineAction::DispatchMessage);
    let action = engine.step(&mut state, EngineEvent::MessageDispatched);
    assert_eq!(action, EngineAction::RetrieveMessage);
}

#[test]
fn quit_message_drains_pointer_then_keyboard() {
    let (mut engine, mut state) = pumping();
    let action = engine.step(&mut state, retrieved(WM_QUIT));
    assert_eq!(action, EngineAction::RemoveHook { kind: HookKind::Pointer, handle: POINTER });
    assert_eq!(engine.phase(), EnginePhase::Draining);
    let action = engine.step(&mut state, EngineEvent::PointerHookRemoved(true));
    assert_eq!(action, EngineAction::RemoveHook { kind: HookKind::Keyboard, handle: KEYBOARD });
    assert_eq!(engine.phase(), EnginePhase::Draining);
    let action = engine.step(&mut state, EngineEvent::KeyboardHookRemoved(true));
    assert_eq!(
        action,
        EngineAction::Report(RunReport {
            exit: Some(ExitReason::QuitMessage),
            signal_handler_installed: true,
            keyboard: HookRecord::Removed,
            pointer: HookRecord::Removed,
        })
    );
    assert_eq!(engine.phase(), EnginePhase::HooksRemoved);
    assert_eq!(engine.step(&mut state, EngineEvent::Reported), EngineAction::Halt);
    assert_eq!(engine.phase(), EnginePhase::Stopped);
}

#[test]
fn retrieval_status_zero_is_a_quit() {
    let (mut engine, mut state) = pumping();
    let action =
        engine.step(&mut state, EngineEvent::MessageRetrieved { status: 0, message: WM_KEYDOWN });
    assert_eq!(action, EngineAction::RemoveHook { kind: HookKind::Pointer, handle: POINTER });
    assert_eq!(engine.exit, Some(ExitReason::QuitMessage));
}

#[test]
fn failed_retrieval_drains() {
    let (mut engine, mut state) = pumping();
    let action = engine.step(
        &mut state,
        EngineEvent::MessageRetrieved { status: -1, message: WM_CAPTURE_REQUESTED },
    );
    assert_eq!(action, EngineAction::RemoveHook { kind: HookKind::Pointer, handle: POINTER });
    assert_eq!(engine.exit, Some(ExitReason::PumpFailed));
}

#[test]
fn raised_exit_flag_ends_the_pump_at_the_next_retrieval() {
    let (mut engine, mut state) = pumping();
    state.should_exit = true;
    let action = engine.step(&mut state, retrieved(WM_CAPTURE_REQUESTED));
    assert_eq!(action, EngineAction::RemoveHook { kind: HookKind::Pointer, handle: POINTER });
    assert_eq!(engine.exit, Some(ExitReason::ExitRequested));
    assert_eq!(engine.phase(), EnginePhase::Draining);
}

#[test]
fn exit_flag_raised_during_a_capture_ends_the_pump_after_it() {
    let (mut engine, mut state) = pumping();
    engine.step(&mut state, retrieved(WM_CAPTURE_REQUESTED));
    state.should_exit = true;
    let action = engine.step(&mut state, EngineEvent::CaptureFinished);
    assert_eq!(action, EngineAction::RemoveHook { kind: HookKind::Pointer, handle: POINTER });
    assert_eq!(engine.exit, Some(ExitReason::ExitRequested));
}

#[test]
fn exit_flag_raised_before_the_first_retrieval_skips_the_pump() {
    let mut engine = Engine::new();
    let mut state = EngineState::new(0);
    engine.step(&mut state, EngineEvent::Start);
    engine.step(&mut state, EngineEvent::SignalHandlerInstalled(true));
    engine.step(&mut state, EngineEvent::ThreadIdCaptured(77));
    engine.step(&mut state, EngineEvent::KeyboardHookInstalled(Some(KEYBOARD)));
    state.should_exit = true;
    let action = engine.step(&mut state, EngineEvent::PointerHookInstalled(Some(POINTER)));
    assert_eq!(action, EngineAction::RemoveHook { kind: HookKind::Pointer, handle: POINTER });
}

#[test]
fn failed_pointer_removal_does_not_spare_the_keyboard_hook() {
    let (mut engine, mut state) = pumping();
    engine.step(&mut state, retrieved(WM_QUIT));
    let action = engine.step(&mut state, EngineEvent::PointerHookRemoved(false));
    assert_eq!(action, EngineAction::RemoveHook { kind: HookKind::Keyboard, handle: KEYBOARD });
    assert_eq!(engine.pointer, HookRecord::RemovalFailed);
    let action = engine.step(&mut state, EngineEvent::KeyboardHookRemoved(false));
    assert_eq!(
        action,
        EngineAction::Report(RunReport {
            exit: Some(ExitReason::QuitMessage),
            signal_handler_installed: true,
            keyboard: HookRecord::RemovalFailed,
            pointer: HookRecord::RemovalFailed,
        })
    );
}

#[test]
fn both_teardown_records_are_kept_apart() {
    let (mut engine, mut state) = pumping();
    engine.step(&mut state, retrieved(WM_QUIT));
    engine.step(&mut state, EngineEvent::PointerHookRemoved(false));
    engine.step(&mut state, EngineEvent::KeyboardHookRemoved(true));
    engine.step(&mut state, EngineEvent::Reported);
    assert_eq!(engine.phase(), EnginePhase::Stopped);
    assert_eq!(engine.pointer, HookRecord::RemovalFailed);
    assert_eq!(engine.keyboard, HookRecord::Removed);
}

#[test]
fn event_out_of_turn_is_ignored() {
    let (mut engine, mut state) = pumping();
    let before = engine;
    for event in [
        EngineEvent::Start,
        EngineEvent::CaptureFinished,
        EngineEvent::MessageDispatched,
        EngineEvent::PointerHookRemoved(true),
        EngineEvent::KeyboardHookRemoved(true),
        EngineEvent::KeyboardHookInstalled(Some(HookHandle { raw: 9 })),
        EngineEvent::Reported,
    ] {
        assert_eq!(engine.step(&mut state, event), EngineAction::Ignored);
        assert_eq!(engine, before);
    }
    assert_eq!(state.owning_thread_id, 77);
}

#[test]
fn stopped_engine_ignores_a_new_start() {
    let (mut engine, mut state) = pumping();
    engine.step(&mut state, retrieved(WM_QUIT));
    engine.step(&mut state, EngineEvent::PointerHookRemoved(true));
    engine.step(&mut state, EngineEvent::KeyboardHookRemoved(true));
    engine.step(&mut state, EngineEvent::Reported);
    state.should_exit = true;
    assert_eq!(engine.step(&mut state, EngineEvent::Start), EngineAction::Ignored);
    assert_eq!(engine.phase(), EnginePhase::Stopped);
    assert!(state.should_exit);
}

#[test]
fn steps_belong_to_their_phases() {
    assert_eq!(EngineStep::Idle.phase(), EnginePhase::Idle);
    assert_eq!(EngineStep::InstallingSignalHandler.phase(), EnginePhase::HooksInstalling);
    assert_eq!(EngineStep::CapturingThreadId.phase(), EnginePhase::HooksInstalling);
    assert_eq!(EngineStep::InstallingKeyboardHook.phase(), EnginePhase::HooksInstalling);
    assert_eq!(EngineStep::InstallingPointerHook.phase(), EnginePhase::HooksInstalling);
    assert_eq!(EngineStep::Retrieving.phase(), EnginePhase::Pumping);
    assert_eq!(EngineStep::Capturing.phase(), EnginePhase::Pumping);
    assert_eq!(EngineStep::Dispatching.phase(), EnginePhase::Pumping);
    assert_eq!(EngineStep::RemovingPointerHook.phase(), EnginePhase::Draining);
    assert_eq!(EngineStep::RemovingKeyboardHook.phase(), EnginePhase::Draining);
    assert_eq!(EngineStep::HooksRemoved.phase(), EnginePhase::HooksRemoved);
    assert_eq!(EngineStep::Stopped.phase(), EnginePhase::Stopped);
}
