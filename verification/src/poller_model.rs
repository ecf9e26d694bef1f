//! Mathematical model of the accessibility poller.
//!
//! Every tick the poller is shown a sample of the focus: the foreground
//! window, its title and what could be read of the focused element. Beside
//! it comes a sample of the pointer: the window under it and what could be
//! read of that window's element. The poller reports a change of the
//! foreground window and any text it has not just reported.

use vstd::prelude::*;
use crate::codes::{
    MIN_REPORT_CHARS, UIA_DOCUMENT_CONTROL_TYPE, UIA_EDIT_CONTROL_TYPE, UIA_TEXT_CONTROL_TYPE,
};
use crate::text::is_blank;

verus! {

/// What could be read of a user-interface element. Each query is best
/// effort: one that failed reads as `None`.
pub struct ElementModel {
    /// The control-type tag.
    pub control_type: Option<u32>,
    /// The text of each selected range, in order; a range whose text could
    /// not be read is `None`.
    pub selection: Option<Seq<Option<Seq<char>>>>,
    /// The current value of the element.
    pub value: Option<Seq<char>>,
}

/// One tick's sample of the focus.
pub struct FocusModel {
    /// Handle of the foreground window; 0 where there is none.
    pub window_handle: isize,
    /// Title of the foreground window.
    pub window_title: Seq<char>,
    /// The focused element, where it could be had.
    pub element: Option<ElementModel>,
}

/// One tick's sample of the pointer.
pub struct PointerModel {
    /// Handle of the window under the pointer; 0 where no window is there.
    pub window_handle: isize,
    /// The element of that window, where it could be had.
    pub element: Option<ElementModel>,
}

/// What the poller remembers between ticks.
pub struct PollerModel {
    pub last_window: Option<isize>,
    pub last_text: Seq<char>,
}

/// What a tick reports.
pub enum PollReportModel {
    FocusChanged { window: isize, title: Seq<char> },
    FocusedText(Seq<char>),
    PointerText(Seq<char>),
}

/// Control types that hold text: edit, document and plain text.
pub open spec fn is_text_control(control_type: u32) -> bool {
    control_type == UIA_EDIT_CONTROL_TYPE || control_type == UIA_DOCUMENT_CONTROL_TYPE
        || control_type == UIA_TEXT_CONTROL_TYPE
}

/// Whether an element is text-relevant. An element whose control type could
/// not be read is not.
pub open spec fn text_relevant(element: ElementModel) -> bool {
    element.control_type matches Some(control_type) && is_text_control(control_type)
}

/// The label put in front of an input field's value.
pub open spec fn field_label() -> Seq<char> {
    "[\u{8f93}\u{5165}\u{6846}\u{5185}\u{5bb9}] "@
}

/// The texts of all ranges, one after the other; a range without text adds
/// nothing.
pub open spec fn concat_ranges(ranges: Seq<Option<Seq<char>>>) -> Seq<char>
    decreases ranges.len(),
{
    if ranges.len() == 0 {
        Seq::empty()
    } else {
        concat_ranges(ranges.drop_last()) + match ranges.last() {
            Some(text) => text,
            None => Seq::empty(),
        }
    }
}

/// First strategy: the selection, all ranges joined, unless it is blank.
pub open spec fn selection_text(element: ElementModel) -> Option<Seq<char>> {
    match element.selection {
        Some(ranges) => if is_blank(concat_ranges(ranges)) {
            None
        } else {
            Some(concat_ranges(ranges))
        },
        None => None,
    }
}

/// Second strategy: the element's value behind the label, unless the value
/// is blank.
pub open spec fn value_text(element: ElementModel) -> Option<Seq<char>> {
    match element.value {
        Some(value) => if is_blank(value) {
            None
        } else {
            Some(field_label() + value)
        },
        None => None,
    }
}

/// The strategies in order of priority; the first that yields text wins.
pub open spec fn extracted_text(element: ElementModel) -> Option<Seq<char>> {
    match selection_text(element) {
        Some(text) => Some(text),
        None => value_text(element),
    }
}

/// A text is reported unless it was the last one reported or is shorter
/// than the minimum.
pub open spec fn reportable(text: Seq<char>, last_text: Seq<char>) -> bool {
    text != last_text && text.len() >= MIN_REPORT_CHARS
}

/// The text an element offers for a report, given what was last reported.
pub open spec fn offered_text(element: Option<ElementModel>, last_text: Seq<char>) -> Option<
    Seq<char>,
> {
    match element {
        Some(e) => if text_relevant(e) {
            match extracted_text(e) {
                Some(text) => if reportable(text, last_text) {
                    Some(text)
                } else {
                    None
                },
                None => None,
            }
        } else {
            None
        },
        None => None,
    }
}

/// The pointer is probed when its position could be had and it is over a
/// window other than the foreground window.
pub open spec fn probes_pointer(focus: FocusModel, pointer: Option<PointerModel>) -> bool {
    pointer matches Some(p) && p.window_handle != 0 && p.window_handle != focus.window_handle
}

/// The text last reported, after an offer.
pub open spec fn text_after(offer: Option<Seq<char>>, last_text: Seq<char>) -> Seq<char> {
    match offer {
        Some(text) => text,
        None => last_text,
    }
}

/// The text of the focused element that this tick reports, if any.
pub open spec fn focused_offer(poller: PollerModel, focus: FocusModel) -> Option<Seq<char>> {
    offered_text(focus.element, poller.last_text)
}

/// The text under the pointer that this tick reports, if any. It is judged
/// against what the focused element has just reported.
pub open spec fn pointer_offer(
    poller: PollerModel,
    focus: FocusModel,
    pointer: Option<PointerModel>,
) -> Option<Seq<char>> {
    match pointer {
        Some(p) => if probes_pointer(focus, pointer) {
            offered_text(p.element, text_after(focused_offer(poller, focus), poller.last_text))
        } else {
            None
        },
        None => None,
    }
}

/// Whether the foreground window differs from the one seen last.
pub open spec fn focus_changed(poller: PollerModel, focus: FocusModel) -> bool {
    poller.last_window != Some(focus.window_handle)
}

/// The reports of a tick, in order: focus change, focused text, pointer
/// text. A tick without a foreground window reports nothing.
pub open spec fn tick_reports(
    poller: PollerModel,
    focus: FocusModel,
    pointer: Option<PointerModel>,
) -> Seq<PollReportModel> {
    if focus.window_handle == 0 {
        Seq::empty()
    } else {
        (if focus_changed(poller, focus) {
            seq![
                PollReportModel::FocusChanged {
                    window: focus.window_handle,
                    title: focus.window_title,
                },
            ]
        } else {
            Seq::empty()
        }) + (match focused_offer(poller, focus) {
            Some(text) => seq![PollReportModel::FocusedText(text)],
            None => Seq::empty(),
        }) + (match pointer_offer(poller, focus, pointer) {
            Some(text) => seq![PollReportModel::PointerText(text)],
            None => Seq::empty(),
        })
    }
}

/// What the poller remembers after a tick.
pub open spec fn tick_poller(
    poller: PollerModel,
    focus: FocusModel,
    pointer: Option<PointerModel>,
) -> PollerModel {
    if focus.window_handle == 0 {
        poller
    } else {
        PollerModel {
            last_window: Some(focus.window_handle),
            last_text: text_after(
                pointer_offer(poller, focus, pointer),
                text_after(focused_offer(poller, focus), poller.last_text),
            ),
        }
    }
}

} // verus!
