//! What holds of every run of the engine control loop.

use vstd::prelude::*;
use crate::codes::WM_CAPTURE_REQUESTED;
use crate::engine::{
    pump_exit, Engine, EngineAction, EngineEvent, EnginePhase, EngineStep, HookKind, HookRecord,
};
use crate::signal::{is_interrupt, signal_requests_exit};
use crate::state::EngineState;

verus! {

/// One input to the control loop: the exit flag as it stands when the event
/// arrives, and the event.
pub struct EngineInput {
    pub should_exit: bool,
    pub event: EngineEvent,
}

/// The engine after a sequence of inputs, taken in order.
pub open spec fn after_inputs(engine: Engine, inputs: Seq<EngineInput>) -> Engine
    decreases inputs.len(),
{
    if inputs.len() == 0 {
        engine
    } else {
        let input = inputs.last();
        after_inputs(engine, inputs.drop_last()).next(input.should_exit, input.event).0
    }
}

/// Which hooks hold a handle at each step of a run. While pumping both do;
/// once the hooks are removed neither does.
pub open spec fn handles_consistent(engine: Engine) -> bool {
    match engine.step {
        EngineStep::Idle => engine.keyboard is NotInstalled && engine.pointer is NotInstalled,
        EngineStep::InstallingSignalHandler => engine.keyboard is NotInstalled && engine.pointer
            is NotInstalled,
        EngineStep::CapturingThreadId => engine.keyboard is NotInstalled && engine.pointer
            is NotInstalled,
        EngineStep::InstallingKeyboardHook => engine.keyboard is NotInstalled && engine.pointer
            is NotInstalled,
        EngineStep::InstallingPointerHook => engine.keyboard is Installed && engine.pointer
            is NotInstalled,
        EngineStep::Retrieving => engine.keyboard is Installed && engine.pointer is Installed,
        EngineStep::Capturing => engine.keyboard is Installed && engine.pointer is Installed,
        EngineStep::Dispatching => engine.keyboard is Installed && engine.pointer is Installed,
        EngineStep::RemovingPointerHook => engine.keyboard is Installed && engine.pointer
            is Installed,
        EngineStep::RemovingKeyboardHook => engine.keyboard is Installed && !(engine.pointer
            is Installed),
        EngineStep::HooksRemoved => !(engine.keyboard is Installed) && !(engine.pointer
            is Installed),
        EngineStep::Stopped => !(engine.keyboard is Installed) && !(engine.pointer is Installed),
    }
}

/// Every step keeps the handles consistent.
pub proof fn lemma_step_keeps_handles_consistent(
    engine: Engine,
    should_exit: bool,
    event: EngineEvent,
)
    requires
        handles_consistent(engine),
    ensures
        handles_consistent(engine.next(should_exit, event).0),
{
}

/// A hook that was installed is never again recorded as not installed.
pub proof fn lemma_step_never_forgets_a_hook(engine: Engine, should_exit: bool, event: EngineEvent)
    ensures
        !(engine.keyboard is NotInstalled) ==> !(engine.next(should_exit, event).0.keyboard
            is NotInstalled),
        !(engine.pointer is NotInstalled) ==> !(engine.next(should_exit, event).0.pointer
            is NotInstalled),
{
}

/// Every run keeps the handles consistent.
pub proof fn lemma_run_keeps_handles_consistent(inputs: Seq<EngineInput>)
    ensures
        handles_consistent(after_inputs(Engine::initial(), inputs)),
    decreases inputs.len(),
{
    if inputs.len() > 0 {
        lemma_run_keeps_handles_consistent(inputs.drop_last());
        let before = after_inputs(Engine::initial(), inputs.drop_last());
        lemma_step_keeps_handles_consistent(before, inputs.last().should_exit, inputs.last().event);
    }
}

/// Along a run, a hook that was installed at some point is never again
/// recorded as not installed.
proof fn lemma_run_never_forgets_a_hook(inputs: Seq<EngineInput>, k: int)
    requires
        0 <= k <= inputs.len(),
    ensures
        !(after_inputs(Engine::initial(), inputs.take(k)).keyboard is NotInstalled) ==> !(
        after_inputs(Engine::initial(), inputs).keyboard is NotInstalled),
        !(after_inputs(Engine::initial(), inputs.take(k)).pointer is NotInstalled) ==> !(
        after_inputs(Engine::initial(), inputs).pointer is NotInstalled),
    decreases inputs.len(),
{
    if k == inputs.len() {
        assert(inputs.take(k) == inputs);
    } else {
        let shorter = inputs.drop_last();
        assert(shorter.take(k) == inputs.take(k));
        lemma_run_never_forgets_a_hook(shorter, k);
        let before = after_inputs(Engine::initial(), shorter);
        lemma_step_never_forgets_a_hook(before, inputs.last().should_exit, inputs.last().event);
    }
}

/// Teardown law. Take any run, whatever the events and whatever the exit
/// flag did in between. If the run has reached the point where the hooks
/// are removed, or has stopped, then for each hook that was installed at
/// any point of the run a removal was attempted and is on record, and no
/// handle is left. A failed removal of one hook does not spare the other:
/// the two records are independent.
pub proof fn lemma_shutdown_removes_every_installed_hook(inputs: Seq<EngineInput>, k: int)
    requires
        0 <= k <= inputs.len(),
        ({
            let phase = after_inputs(Engine::initial(), inputs).step.spec_phase();
            phase == EnginePhase::HooksRemoved || phase == EnginePhase::Stopped
        }),
    ensures
        after_inputs(Engine::initial(), inputs.take(k)).keyboard is Installed ==> after_inputs(
            Engine::initial(),
            inputs,
        ).keyboard.teardown_attempted(),
        after_inputs(Engine::initial(), inputs.take(k)).pointer is Installed ==> after_inputs(
            Engine::initial(),
            inputs,
        ).pointer.teardown_attempted(),
        !(after_inputs(Engine::initial(), inputs).keyboard is Installed),
        !(after_inputs(Engine::initial(), inputs).pointer is Installed),
{
    lemma_run_keeps_handles_consistent(inputs);
    lemma_run_never_forgets_a_hook(inputs, k);
}

/// Exit law. Once the exit flag is raised, the pump is left with the very
/// next outcome it was waiting for: a retrieved message, a finished capture
/// or a dispatched message all lead to teardown.
pub proof fn lemma_exit_flag_ends_pump(engine: Engine, event: EngineEvent)
    requires
        engine.step.spec_phase() == EnginePhase::Pumping,
        engine.fits(event),
    ensures
        ({
            let phase = engine.next(true, event).0.step.spec_phase();
            phase == EnginePhase::Draining || phase == EnginePhase::HooksRemoved
        }),
        handles_consistent(engine) ==> engine.next(true, event).0.step.spec_phase()
            == EnginePhase::Draining,
{
}

/// Interrupt law. Once the injection flag is lowered, an interrupt raises
/// the exit flag, and with the flag raised the pump is left with the very
/// next outcome it was waiting for.
pub proof fn lemma_interrupt_ends_pump(
    state: EngineState,
    ctrl_type: u32,
    engine: Engine,
    event: EngineEvent,
)
    requires
        is_interrupt(ctrl_type),
        !state.simulating_injection,
        engine.step.spec_phase() == EnginePhase::Pumping,
        engine.fits(event),
    ensures
        ({
            let raised = state.should_exit || signal_requests_exit(
                state.simulating_injection,
                ctrl_type,
            );
            raised && engine.next(raised, event).0.step.spec_phase() != EnginePhase::Pumping
        }),
{
    lemma_exit_flag_ends_pump(engine, event);
}

/// Single-consumer law. A capture is started only in answer to a retrieved
/// capture request, with the exit flag down; and while a capture runs, no
/// event starts a second one.
pub proof fn lemma_one_capture_at_a_time(engine: Engine, should_exit: bool, event: EngineEvent)
    ensures
        engine.next(should_exit, event).1 == EngineAction::RunCapture ==> {
            &&& engine.step == EngineStep::Retrieving
            &&& event matches EngineEvent::MessageRetrieved { message, .. }
            &&& message == WM_CAPTURE_REQUESTED
            &&& !should_exit
            &&& engine.next(should_exit, event).0.step == EngineStep::Capturing
        },
        engine.step == EngineStep::Capturing ==> engine.next(should_exit, event).1
            != EngineAction::RunCapture,
{
}

/// A quit message or a failed retrieval ends the pump as well, whatever the
/// exit flag says.
pub proof fn lemma_quit_ends_pump(engine: Engine, should_exit: bool, status: i32, message: u32)
    requires
        engine.step == EngineStep::Retrieving,
        pump_exit(status, message, should_exit) is Some,
    ensures
        ({
            let phase = engine.next(
                should_exit,
                EngineEvent::MessageRetrieved { status, message },
            ).0.step.spec_phase();
            phase == EnginePhase::Draining || phase == EnginePhase::HooksRemoved
        }),
{
}

/// Whether or not the pointer hook could be removed, the keyboard hook's
/// removal comes next.
pub proof fn lemma_failed_removal_does_not_stop_teardown(
    engine: Engine,
    should_exit: bool,
    succeeded: bool,
)
    requires
        engine.step == EngineStep::RemovingPointerHook,
        handles_consistent(engine),
    ensures
        engine.next(should_exit, EngineEvent::PointerHookRemoved(succeeded)).1
            == (EngineAction::RemoveHook {
            kind: HookKind::Keyboard,
            handle: engine.keyboard->Installed_0,
        }),
        engine.next(should_exit, EngineEvent::PointerHookRemoved(succeeded)).0.pointer
            == HookRecord::after_removal(succeeded),
{
}

/// Partial-failure law. When the pointer hook cannot be installed after the
/// keyboard hook was, the next action removes the keyboard hook.
pub proof fn lemma_failed_pointer_hook_rolls_back(engine: Engine, should_exit: bool)
    requires
        engine.step == EngineStep::InstallingPointerHook,
        handles_consistent(engine),
    ensures
        engine.next(should_exit, EngineEvent::PointerHookInstalled(None)).1
            == (EngineAction::RemoveHook {
            kind: HookKind::Keyboard,
            handle: engine.keyboard->Installed_0,
        }),
{
}

} // verus!
