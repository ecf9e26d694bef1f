//! Platform codes and fixed delays the engine works with.

use vstd::prelude::*;

verus! {

/// Window message: primary pointer button released.
pub const WM_LBUTTONUP: u32 = 0x0202;

/// Window message: a non-system key was pressed.
pub const WM_KEYDOWN: u32 = 0x0100;

/// Window message: the message loop is asked to end.
pub const WM_QUIT: u32 = 0x0012;

/// First message number available for private use.
pub const WM_USER: u32 = 0x0400;

/// Private message posted to the owning thread when a capture is requested.
pub const WM_CAPTURE_REQUESTED: u32 = 0x0401;

/// Virtual key: Escape.
pub const VK_ESCAPE: u16 = 0x1B;

/// Virtual key: the letter C.
pub const VK_C: u16 = 0x43;

/// Virtual key: left Control.
pub const VK_LCONTROL: u16 = 0xA2;

/// Control signal: Ctrl+C.
pub const CTRL_C_EVENT: u32 = 0;

/// Control signal: Ctrl+Break.
pub const CTRL_BREAK_EVENT: u32 = 1;

/// Control signal: the console window is closing.
pub const CTRL_CLOSE_EVENT: u32 = 2;

/// Control signal: the user is logging off.
pub const CTRL_LOGOFF_EVENT: u32 = 5;

/// Control signal: the system is shutting down.
pub const CTRL_SHUTDOWN_EVENT: u32 = 6;

/// Accessibility control type: edit box.
pub const UIA_EDIT_CONTROL_TYPE: u32 = 50004;

/// Accessibility control type: plain text.
pub const UIA_TEXT_CONTROL_TYPE: u32 = 50020;

/// Accessibility control type: document.
pub const UIA_DOCUMENT_CONTROL_TYPE: u32 = 50030;

/// Minimum distance, in milliseconds, between two accepted triggers.
pub const COOLDOWN_MS: u64 = 300;

/// How long the injection flag stays raised after the keys were submitted.
pub const INJECTION_HOLD_MS: u64 = 50;

/// How long the focused application is given to fill the clipboard.
pub const SETTLE_MS: u64 = 150;

/// Grace period granted on a close, logoff or shutdown signal.
pub const SHUTDOWN_GRACE_MS: u64 = 100;

/// Interval between two accessibility samples.
pub const POLL_INTERVAL_MS: u64 = 500;

/// Shortest text, in characters, that the poller reports.
pub const MIN_REPORT_CHARS: usize = 2;

} // verus!
