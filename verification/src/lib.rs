//! Decision core of a desktop-wide selected-text capture engine.
//!
//! The engine watches for a pointer release anywhere on the desktop, sends
//! the focused application a synthetic copy command, reads what lands on the
//! clipboard and puts the clipboard back as it was. A second, best-effort
//! path polls the accessibility tree instead.
//!
//! Nothing in this crate touches the operating system. Each component is a
//! function from state and event to state and action: the surrounding
//! program performs the action (installs a hook, submits keys, sleeps, reads
//! the clipboard) and reports the outcome as the next event. What the
//! component decides is fixed by its contract, and the properties that hold
//! of every run are proved beside it.
//!
//! - [`state`]: the shared engine state and the debounce rule.
//! - [`hooks`]: the pointer and keyboard callbacks.
//! - [`signal`]: the control-signal handler.
//! - [`injector`]: the synthetic copy command.
//! - [`capture`], [`capture_model`], [`capture_laws`]: one capture attempt
//!   as a clipboard transaction.
//! - [`engine`], [`engine_laws`]: the control loop.
//! - [`poller`], [`poller_model`], [`window`]: the accessibility poller.
//! - [`clipboard_poller`]: plain clipboard watching.
//! - [`menu`]: the mode menu.
//! - [`text`], [`codes`]: text predicates, platform codes and delays.

pub mod codes;
pub mod text;
pub mod state;
pub mod hooks;
pub mod signal;
pub mod injector;
pub mod capture_model;
pub mod capture;
pub mod capture_laws;
pub mod engine;
pub mod engine_laws;
pub mod poller_model;
pub mod poller;
pub mod window;
pub mod clipboard_poller;
pub mod menu;
