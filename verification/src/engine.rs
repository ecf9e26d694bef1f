//! The engine control loop, as a machine that the surrounding program drives.
//!
//! The loop installs the signal handler and the two hooks, pumps messages,
//! routes capture requests to the capture workflow, and on exit removes
//! every hook it installed. The program performs each action and reports its
//! outcome as an event; which action comes next is decided here.

use vstd::prelude::*;
use crate::codes::{WM_CAPTURE_REQUESTED, WM_QUIT};
use crate::state::EngineState;

verus! {

/// Opaque platform handle of an installed hook.
#[derive(Clone, Copy, Debug, PartialEq, Eq, Structural)]
pub struct HookHandle {
    pub raw: isize,
}

/// The two kinds of hook the engine installs.
#[derive(Clone, Copy, Debug, PartialEq, Eq, Structural)]
pub enum HookKind {
    Keyboard,
    Pointer,
}

/// The life of one hook within a run. A handle exists only while the record
/// says `Installed`; once a removal was attempted the handle is gone,
/// whether or not the removal worked.
#[derive(Clone, Copy, Debug, PartialEq, Eq, Structural)]
pub enum HookRecord {
    NotInstalled,
    Installed(HookHandle),
    Removed,
    RemovalFailed,
}

impl HookRecord {
    /// A removal was attempted.
    pub open spec fn teardown_attempted(self) -> bool {
        self is Removed || self is RemovalFailed
    }

    /// The record after a removal attempt that did or did not succeed.
    pub open spec fn after_removal(succeeded: bool) -> HookRecord {
        if succeeded {
            HookRecord::Removed
        } else {
            HookRecord::RemovalFailed
        }
    }
}

/// The phases of a run.
#[derive(Clone, Copy, Debug, PartialEq, Eq, Structural)]
pub enum EnginePhase {
    Idle,
    HooksInstalling,
    Pumping,
    Draining,
    HooksRemoved,
    Stopped,
}

/// Why a run could not start.
#[derive(Clone, Copy, Debug, PartialEq, Eq, Structural)]
pub enum InitializationFailure {
    ThreadIdUnavailable,
    KeyboardHookFailed,
    PointerHookFailed,
}

/// Why the message pump was left.
#[derive(Clone, Copy, Debug, PartialEq, Eq, Structural)]
pub enum ExitReason {
    /// A quit message was retrieved.
    QuitMessage,
    /// The exit flag was found raised.
    ExitRequested,
    /// Retrieving a message failed.
    PumpFailed,
    /// The run never got as far as pumping.
    Initialization(InitializationFailure),
}

/// The position within a phase: which outcome the engine is waiting for.
#[derive(Clone, Copy, Debug, PartialEq, Eq, Structural)]
pub enum EngineStep {
    Idle,
    InstallingSignalHandler,
    CapturingThreadId,
    InstallingKeyboardHook,
    InstallingPointerHook,
    Retrieving,
    Capturing,
    Dispatching,
    RemovingPointerHook,
    RemovingKeyboardHook,
    HooksRemoved,
    Stopped,
}

impl EngineStep {
    /// The phase a step belongs to.
    pub open spec fn spec_phase(self) -> EnginePhase {
        match self {
            EngineStep::Idle => EnginePhase::Idle,
            EngineStep::InstallingSignalHandler => EnginePhase::HooksInstalling,
            EngineStep::CapturingThreadId => EnginePhase::HooksInstalling,
            EngineStep::InstallingKeyboardHook => EnginePhase::HooksInstalling,
            EngineStep::InstallingPointerHook => EnginePhase::HooksInstalling,
            EngineStep::Retrieving => EnginePhase::Pumping,
            EngineStep::Capturing => EnginePhase::Pumping,
            EngineStep::Dispatching => EnginePhase::Pumping,
            EngineStep::RemovingPointerHook => EnginePhase::Draining,
            EngineStep::RemovingKeyboardHook => EnginePhase::Draining,
            EngineStep::HooksRemoved => EnginePhase::HooksRemoved,
            EngineStep::Stopped => EnginePhase::Stopped,
        }
    }

    /// The phase a step belongs to.
    #[verifier::when_used_as_spec(spec_phase)]
    pub fn phase(self) -> (phase: EnginePhase)
        ensures
            phase == self.spec_phase(),
    {
        match self {
            EngineStep::Idle => EnginePhase::Idle,
            EngineStep::InstallingSignalHandler => EnginePhase::HooksInstalling,
            EngineStep::CapturingThreadId => EnginePhase::HooksInstalling,
            EngineStep::InstallingKeyboardHook => EnginePhase::HooksInstalling,
            EngineStep::InstallingPointerHook => EnginePhase::HooksInstalling,
            EngineStep::Retrieving => EnginePhase::Pumping,
            EngineStep::Capturing => EnginePhase::Pumping,
            EngineStep::Dispatching => EnginePhase::Pumping,
            EngineStep::RemovingPointerHook => EnginePhase::Draining,
            EngineStep::RemovingKeyboardHook => EnginePhase::Draining,
            EngineStep::HooksRemoved => EnginePhase::HooksRemoved,
            EngineStep::Stopped => EnginePhase::Stopped,
        }
    }
}

/// What the surrounding program reports back after an action.
#[derive(Clone, Copy, Debug, PartialEq, Eq, Structural)]
pub enum EngineEvent {
    /// A run is asked for.
    Start,
    /// The signal handler was registered, or could not be.
    SignalHandlerInstalled(bool),
    /// The identity of the owning thread; 0 where it could not be had.
    ThreadIdCaptured(u32),
    /// The keyboard hook's handle, or `None` where installing it failed.
    KeyboardHookInstalled(Option<HookHandle>),
    /// The pointer hook's handle, or `None` where installing it failed.
    PointerHookInstalled(Option<HookHandle>),
    /// The blocking retrieval returned: its status and the message number.
    MessageRetrieved { status: i32, message: u32 },
    /// The capture workflow ran to its end.
    CaptureFinished,
    /// The platform's default handling of a message is done.
    MessageDispatched,
    /// The removal of the pointer hook succeeded or failed.
    PointerHookRemoved(bool),
    /// The removal of the keyboard hook succeeded or failed.
    KeyboardHookRemoved(bool),
    /// The run's report was delivered.
    Reported,
}

/// Summary of a run, handed out once both teardown steps are behind.
#[derive(Clone, Copy, Debug, PartialEq, Eq, Structural)]
pub struct RunReport {
    pub exit: Option<ExitReason>,
    pub signal_handler_installed: bool,
    pub keyboard: HookRecord,
    pub pointer: HookRecord,
}

/// What the surrounding program is asked to do next.
#[derive(Clone, Copy, Debug, PartialEq, Eq, Structural)]
pub enum EngineAction {
    InstallSignalHandler,
    CaptureThreadId,
    InstallKeyboardHook,
    InstallPointerHook,
    /// Block until the next message arrives.
    RetrieveMessage,
    /// Run one capture attempt to its end.
    RunCapture,
    /// Hand the message to the platform's default handling.
    DispatchMessage,
    /// Remove this hook.
    RemoveHook { kind: HookKind, handle: HookHandle },
    /// Deliver the report of the run.
    Report(RunReport),
    /// The run is over.
    Halt,
    /// The event does not belong to the current step; nothing changed.
    Ignored,
}

/// The control loop of one run.
#[derive(Clone, Copy, Debug, PartialEq, Eq, Structural)]
pub struct Engine {
    pub step: EngineStep,
    pub keyboard: HookRecord,
    pub pointer: HookRecord,
    pub signal_handler_installed: bool,
    pub exit: Option<ExitReason>,
}

/// The thread identity that stands for no thread.
pub const NO_THREAD: u32 = 0;

/// The status with which a retrieval reports a failure.
pub const RETRIEVAL_FAILED: i32 = -1;

/// The status with which a retrieval reports a quit message.
pub const RETRIEVAL_QUIT: i32 = 0;

/// A retrieval that brought a quit message.
pub open spec fn is_quit(status: i32, message: u32) -> bool {
    status == RETRIEVAL_QUIT || message == WM_QUIT
}

/// Why a retrieval ends the pump, if it does. A failure counts before a quit
/// message, and a quit message before the exit flag.
pub open spec fn pump_exit(status: i32, message: u32, should_exit: bool) -> Option<ExitReason> {
    if status == RETRIEVAL_FAILED {
        Some(ExitReason::PumpFailed)
    } else if is_quit(status, message) {
        Some(ExitReason::QuitMessage)
    } else if should_exit {
        Some(ExitReason::ExitRequested)
    } else {
        None
    }
}

impl Engine {
    /// The engine before any run: idle, with no hook installed.
    pub open spec fn initial() -> Engine {
        Engine {
            step: EngineStep::Idle,
            keyboard: HookRecord::NotInstalled,
            pointer: HookRecord::NotInstalled,
            signal_handler_installed: false,
            exit: None,
        }
    }

    /// The report of this engine.
    pub open spec fn report(self) -> RunReport {
        RunReport {
            exit: self.exit,
            signal_handler_installed: self.signal_handler_installed,
            keyboard: self.keyboard,
            pointer: self.pointer,
        }
    }

    /// Leaves for teardown: the pointer hook goes first, then the keyboard
    /// hook; a hook that holds no handle is skipped. With nothing left to
    /// remove the report is due.
    pub open spec fn drained(self, reason: ExitReason) -> (Engine, EngineAction) {
        let e = Engine { exit: Some(reason), ..self };
        match e.pointer {
            HookRecord::Installed(handle) => (
                Engine { step: EngineStep::RemovingPointerHook, ..e },
                EngineAction::RemoveHook { kind: HookKind::Pointer, handle },
            ),
            _ => e.keyboard_drained(),
        }
    }

    /// The second half of teardown: the keyboard hook, then the report.
    pub open spec fn keyboard_drained(self) -> (Engine, EngineAction) {
        match self.keyboard {
            HookRecord::Installed(handle) => (
                Engine { step: EngineStep::RemovingKeyboardHook, ..self },
                EngineAction::RemoveHook { kind: HookKind::Keyboard, handle },
            ),
            _ => {
                let e = Engine { step: EngineStep::HooksRemoved, ..self };
                (e, EngineAction::Report(e.report()))
            },
        }
    }

    /// The top of the pump: leave if the exit flag is raised, else wait for
    /// the next message.
    pub open spec fn pumped(self, should_exit: bool) -> (Engine, EngineAction) {
        if should_exit {
            self.drained(ExitReason::ExitRequested)
        } else {
            (Engine { step: EngineStep::Retrieving, ..self }, EngineAction::RetrieveMessage)
        }
    }

    /// Whether the event is one that the current step waits for.
    pub open spec fn fits(self, event: EngineEvent) -> bool {
        match self.step {
            EngineStep::Idle => event is Start,
            EngineStep::InstallingSignalHandler => event is SignalHandlerInstalled,
            EngineStep::CapturingThreadId => event is ThreadIdCaptured,
            EngineStep::InstallingKeyboardHook => event is KeyboardHookInstalled,
            EngineStep::InstallingPointerHook => event is PointerHookInstalled,
            EngineStep::Retrieving => event is MessageRetrieved,
            EngineStep::Capturing => event is CaptureFinished,
            EngineStep::Dispatching => event is MessageDispatched,
            EngineStep::RemovingPointerHook => event is PointerHookRemoved,
            EngineStep::RemovingKeyboardHook => event is KeyboardHookRemoved,
            EngineStep::HooksRemoved => event is Reported,
            EngineStep::Stopped => false,
        }
    }

    /// The engine and the action after an event, given the exit flag as it
    /// stands when the event arrives. An event that does not fit changes
    /// nothing and is answered with `Ignored`.
    pub open spec fn next(self, should_exit: bool, event: EngineEvent) -> (Engine, EngineAction) {
        if !self.fits(event) {
            (self, EngineAction::Ignored)
        } else {
            match event {
                EngineEvent::Start => (
                    Engine { step: EngineStep::InstallingSignalHandler, ..self },
                    EngineAction::InstallSignalHandler,
                ),
                EngineEvent::SignalHandlerInstalled(installed) => (
                    Engine {
                        step: EngineStep::CapturingThreadId,
                        signal_handler_installed: installed,
                        ..self
                    },
                    EngineAction::CaptureThreadId,
                ),
                EngineEvent::ThreadIdCaptured(id) => if id != NO_THREAD {
                    (
                        Engine { step: EngineStep::InstallingKeyboardHook, ..self },
                        EngineAction::InstallKeyboardHook,
                    )
                } else {
                    self.drained(
                        ExitReason::Initialization(InitializationFailure::ThreadIdUnavailable),
                    )
                },
                EngineEvent::KeyboardHookInstalled(Some(handle)) => (
                    Engine {
                        step: EngineStep::InstallingPointerHook,
                        keyboard: HookRecord::Installed(handle),
                        ..self
                    },
                    EngineAction::InstallPointerHook,
                ),
                EngineEvent::KeyboardHookInstalled(None) => self.drained(
                    ExitReason::Initialization(InitializationFailure::KeyboardHookFailed),
                ),
                EngineEvent::PointerHookInstalled(Some(handle)) => (Engine {
                    pointer: HookRecord::Installed(handle),
                    ..self
                }).pumped(should_exit),
                EngineEvent::PointerHookInstalled(None) => self.drained(
                    ExitReason::Initialization(InitializationFailure::PointerHookFailed),
                ),
                EngineEvent::MessageRetrieved { status, message } => match pump_exit(
                    status,
                    message,
                    should_exit,
                ) {
                    Some(reason) => self.drained(reason),
                    None => if message == WM_CAPTURE_REQUESTED {
                        (Engine { step: EngineStep::Capturing, ..self }, EngineAction::RunCapture)
                    } else {
                        (
                            Engine { step: EngineStep::Dispatching, ..self },
                            EngineAction::DispatchMessage,
                        )
                    },
                },
                EngineEvent::CaptureFinished => self.pumped(should_exit),
                EngineEvent::MessageDispatched => self.pumped(should_exit),
                EngineEvent::PointerHookRemoved(succeeded) => (Engine {
                    pointer: HookRecord::after_removal(succeeded),
                    ..self
                }).keyboard_drained(),
                EngineEvent::KeyboardHookRemoved(succeeded) => {
                    let e = Engine {
                        step: EngineStep::HooksRemoved,
                        keyboard: HookRecord::after_removal(succeeded),
                        ..self
                    };
                    (e, EngineAction::Report(e.report()))
                },
                EngineEvent::Reported => (
                    Engine { step: EngineStep::Stopped, ..self },
                    EngineAction::Halt,
                ),
            }
        }
    }

    /// The shared state after an event: a start resets it for the new run,
    /// a captured thread identity is stored, nothing else touches it.
    pub open spec fn next_state(self, state: EngineState, event: EngineEvent) -> EngineState {
        if !self.fits(event) {
            state
        } else {
            match event {
                EngineEvent::Start => EngineState {
                    owning_thread_id: NO_THREAD,
                    should_exit: false,
                    last_trigger_time: None,
                    simulating_injection: false,
                },
                EngineEvent::ThreadIdCaptured(id) => EngineState { owning_thread_id: id, ..state },
                _ => state,
            }
        }
    }
}

impl Engine {
    /// An engine that has not started a run.
    pub fn new() -> (engine: Engine)
        ensures
            engine == Engine::initial(),
    {
        Engine {
            step: EngineStep::Idle,
            keyboard: HookRecord::NotInstalled,
            pointer: HookRecord::NotInstalled,
            signal_handler_installed: false,
            exit: None,
        }
    }

    /// The phase the engine is in.
    pub fn phase(&self) -> (phase: EnginePhase)
        ensures
            phase == self.step.spec_phase(),
    {
        self.step.phase()
    }

    fn drain_keyboard(&mut self) -> (action: EngineAction)
        ensures
            (*final(self), action) == old(self).keyboard_drained(),
    {
        match self.keyboard {
            HookRecord::Installed(handle) => {
                self.step = EngineStep::RemovingKeyboardHook;
                EngineAction::RemoveHook { kind: HookKind::Keyboard, handle }
            },
            _ => {
                self.step = EngineStep::HooksRemoved;
                EngineAction::Report(
                    RunReport {
                        exit: self.exit,
                        signal_handler_installed: self.signal_handler_installed,
                        keyboard: self.keyboard,
                        pointer: self.pointer,
                    },
                )
            },
        }
    }

    fn drain(&mut self, reason: ExitReason) -> (action: EngineAction)
        ensures
            (*final(self), action) == old(self).drained(reason),
    {
        self.exit = Some(reason);
        match self.pointer {
            HookRecord::Installed(handle) => {
                self.step = EngineStep::RemovingPointerHook;
                EngineAction::RemoveHook { kind: HookKind::Pointer, handle }
            },
            _ => self.drain_keyboard(),
        }
    }

    fn pump(&mut self, should_exit: bool) -> (action: EngineAction)
        ensures
            (*final(self), action) == old(self).pumped(should_exit),
    {
        if should_exit {
            self.drain(ExitReason::ExitRequested)
        } else {
            self.step = EngineStep::Retrieving;
            EngineAction::RetrieveMessage
        }
    }

    /// Takes the outcome of the last action and says what to do next.
    ///
    /// The exit flag is read as it stands when the event arrives: the hook
    /// callbacks and the signal handler raise it between two steps. Of the
    /// shared state only a start and a captured thread identity change
    /// anything.
    pub fn step(&mut self, state: &mut EngineState, event: EngineEvent) -> (action: EngineAction)
        ensures
            (*final(self), action) == old(self).next(old(state).should_exit, event),
            *final(state) == old(self).next_state(*old(state), event),
    {
        let should_exit = state.should_exit;
        match (self.step, event) {
            (EngineStep::Idle, EngineEvent::Start) => {
                *state = EngineState::new(NO_THREAD);
                self.step = EngineStep::InstallingSignalHandler;
                EngineAction::InstallSignalHandler
            },
            (EngineStep::InstallingSignalHandler, EngineEvent::SignalHandlerInstalled(installed)) => {
                self.signal_handler_installed = installed;
                self.step = EngineStep::CapturingThreadId;
                EngineAction::CaptureThreadId
            },
            (EngineStep::CapturingThreadId, EngineEvent::ThreadIdCaptured(id)) => {
                state.owning_thread_id = id;
                if id != NO_THREAD {
                    self.step = EngineStep::InstallingKeyboardHook;
                    EngineAction::InstallKeyboardHook
                } else {
                    self.drain(
                        ExitReason::Initialization(InitializationFailure::ThreadIdUnavailable),
                    )
                }
            },
            (EngineStep::InstallingKeyboardHook, EngineEvent::KeyboardHookInstalled(installed)) => {
                match installed {
                    Some(handle) => {
                        self.keyboard = HookRecord::Installed(handle);
                        self.step = EngineStep::InstallingPointerHook;
                        EngineAction::InstallPointerHook
                    },
                    None => self.drain(
                        ExitReason::Initialization(InitializationFailure::KeyboardHookFailed),
                    ),
                }
            },
            (EngineStep::InstallingPointerHook, EngineEvent::PointerHookInstalled(installed)) => {
                match installed {
                    Some(handle) => {
                        self.pointer = HookRecord::Installed(handle);
                        self.pump(should_exit)
                    },
                    None => self.drain(
                        ExitReason::Initialization(InitializationFailure::PointerHookFailed),
                    ),
                }
            },
            (EngineStep::Retrieving, EngineEvent::MessageRetrieved { status, message }) => {
                if status == RETRIEVAL_FAILED {
                    self.drain(ExitReason::PumpFailed)
                } else if status == RETRIEVAL_QUIT || message == WM_QUIT {
                    self.drain(ExitReason::QuitMessage)
                } else if should_exit {
                    self.drain(ExitReason::ExitRequested)
                } else if message == WM_CAPTURE_REQUESTED {
                    self.step = EngineStep::Capturing;
                    EngineAction::RunCapture
                } else {
                    self.step = EngineStep::Dispatching;
                    EngineAction::DispatchMessage
                }
            },
            (EngineStep::Capturing, EngineEvent::CaptureFinished) => self.pump(should_exit),
            (EngineStep::Dispatching, EngineEvent::MessageDispatched) => self.pump(should_exit),
            (EngineStep::RemovingPointerHook, EngineEvent::PointerHookRemoved(succeeded)) => {
                self.pointer = if succeeded {
                    HookRecord::Removed
                } else {
                    HookRecord::RemovalFailed
                };
                self.drain_keyboard()
            },
            (EngineStep::RemovingKeyboardHook, EngineEvent::KeyboardHookRemoved(succeeded)) => {
                self.keyboard = if succeeded {
                    HookRecord::Removed
                } else {
                    HookRecord::RemovalFailed
                };
                self.step = EngineStep::HooksRemoved;
                EngineAction::Report(
                    RunReport {
                        exit: self.exit,
                        signal_handler_installed: self.signal_handler_installed,
                        keyboard: self.keyboard,
                        pointer: self.pointer,
                    },
                )
            },
            (EngineStep::HooksRemoved, EngineEvent::Reported) => {
                self.step = EngineStep::Stopped;
                EngineAction::Halt
            },
            _ => EngineAction::Ignored,
        }
    }
}

} // verus!
