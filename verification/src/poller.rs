//! The accessibility poller: an alternative to the hooks.
//!
//! The surrounding program samples the desktop at a fixed interval and
//! hands each sample over; what is worth reporting is decided here.

use vstd::prelude::*;
use vstd::string::{StrSliceExecFns, StringExecFns};
use crate::codes::{
    MIN_REPORT_CHARS, UIA_DOCUMENT_CONTROL_TYPE, UIA_EDIT_CONTROL_TYPE, UIA_TEXT_CONTROL_TYPE,
};
use crate::poller_model::{
    concat_ranges, extracted_text, offered_text, text_relevant, tick_poller, tick_reports,
    ElementModel, FocusModel, PointerModel, PollReportModel, PollerModel,
};
use crate::text::{text_is_blank, text_of};

verus! {

/// The characters of each range of a selection.
pub open spec fn ranges_of(ranges: Seq<Option<String>>) -> Seq<Option<Seq<char>>> {
    Seq::new(ranges.len(), |i: int| text_of(ranges[i]))
}

/// What could be read of a user-interface element. Each query is best
/// effort: one that failed reads as `None`.
#[derive(Clone, Debug, PartialEq, Eq)]
pub struct ElementSnapshot {
    /// The control-type tag.
    pub control_type: Option<u32>,
    /// The text of each selected range, in order; a range whose text could
    /// not be read is `None`.
    pub selection: Option<Vec<Option<String>>>,
    /// The current value of the element.
    pub value: Option<String>,
}

impl View for ElementSnapshot {
    type V = ElementModel;

    open spec fn view(&self) -> ElementModel {
        ElementModel {
            control_type: self.control_type,
            selection: match self.selection {
                Some(ranges) => Some(ranges_of(ranges@)),
                None => None,
            },
            value: text_of(self.value),
        }
    }
}

/// The model of an element that may be missing.
pub open spec fn element_of(element: Option<ElementSnapshot>) -> Option<ElementModel> {
    match element {
        Some(e) => Some(e@),
        None => None,
    }
}

/// One tick's sample of the focus. It is taken anew every tick and kept
/// only to be compared with the tick before.
#[derive(Clone, Debug, PartialEq, Eq)]
pub struct FocusSample {
    /// Handle of the foreground window; 0 where there is none.
    pub window_handle: isize,
    /// Title of the foreground window.
    pub window_title: String,
    /// The focused element, where it could be had.
    pub element: Option<ElementSnapshot>,
}

impl View for FocusSample {
    type V = FocusModel;

    open spec fn view(&self) -> FocusModel {
        FocusModel {
            window_handle: self.window_handle,
            window_title: self.window_title@,
            element: element_of(self.element),
        }
    }
}

/// One tick's sample of the pointer.
#[derive(Clone, Debug, PartialEq, Eq)]
pub struct PointerSample {
    /// Handle of the window under the pointer; 0 where no window is there.
    pub window_handle: isize,
    /// The element of that window, where it could be had.
    pub element: Option<ElementSnapshot>,
}

impl View for PointerSample {
    type V = PointerModel;

    open spec fn view(&self) -> PointerModel {
        PointerModel { window_handle: self.window_handle, element: element_of(self.element) }
    }
}

/// The model of a pointer sample that may be missing.
pub open spec fn pointer_of(pointer: Option<&PointerSample>) -> Option<PointerModel> {
    match pointer {
        Some(p) => Some(p@),
        None => None,
    }
}

/// What a tick reports.
#[derive(Clone, Debug, PartialEq, Eq)]
pub enum PollReport {
    /// The foreground window is another one than at the last tick.
    FocusChanged { window: isize, title: String },
    /// Text found in the focused element.
    FocusedText(String),
    /// Text found in the element under the pointer.
    PointerText(String),
}

impl View for PollReport {
    type V = PollReportModel;

    open spec fn view(&self) -> PollReportModel {
        match self {
            PollReport::FocusChanged { window, title } => PollReportModel::FocusChanged {
                window: *window,
                title: title@,
            },
            PollReport::FocusedText(text) => PollReportModel::FocusedText(text@),
            PollReport::PointerText(text) => PollReportModel::PointerText(text@),
        }
    }
}

/// The models of a list of reports.
pub open spec fn reports_of(reports: Seq<PollReport>) -> Seq<PollReportModel> {
    Seq::new(reports.len(), |i: int| reports[i]@)
}

/// What the poller remembers between ticks.
#[derive(Clone, Debug, PartialEq, Eq)]
pub struct Poller {
    pub last_window: Option<isize>,
    pub last_text: String,
}

impl View for Poller {
    type V = PollerModel;

    open spec fn view(&self) -> PollerModel {
        PollerModel { last_window: self.last_window, last_text: self.last_text@ }
    }
}

/// Whether an element is text-relevant: an edit box, a document or plain
/// text.
pub fn is_text_element(element: &ElementSnapshot) -> (relevant: bool)
    ensures
        relevant == text_relevant(element@),
{
    match element.control_type {
        Some(control_type) => control_type == UIA_EDIT_CONTROL_TYPE || control_type
            == UIA_DOCUMENT_CONTROL_TYPE || control_type == UIA_TEXT_CONTROL_TYPE,
        None => false,
    }
}

/// Joins the texts of all selected ranges.
fn join_ranges(ranges: &Vec<Option<String>>) -> (joined: String)
    ensures
        joined@ == concat_ranges(ranges_of(ranges@)),
{
    let mut joined = String::new();
    let mut i: usize = 0;
    while i < ranges.len()
        invariant
            i <= ranges.len(),
            joined@ == concat_ranges(ranges_of(ranges@).take(i as int)),
        decreases ranges.len() - i,
    {
        proof {
            let all = ranges_of(ranges@);
            assert(all.take(i + 1).drop_last() == all.take(i as int));
            assert(all.take(i + 1).last() == text_of(ranges@[i as int]));
        }
        match &ranges[i] {
            Some(text) => {
                joined.append(text.as_str());
            },
            None => {},
        }
        i = i + 1;
    }
    assert(ranges_of(ranges@).take(i as int) == ranges_of(ranges@));
    joined
}

/// Extracts text from an element, trying in order of priority: the
/// selection, all ranges joined; then the element's value, marked as the
/// content of an input field. Blank text does not count as found.
pub fn try_get_selected_text(element: &ElementSnapshot) -> (text: Option<String>)
    ensures
        text_of(text) == extracted_text(element@),
{
    match &element.selection {
        Some(ranges) => {
            let joined = join_ranges(ranges);
            if !text_is_blank(joined.as_str()) {
                return Some(joined);
            }
        },
        None => {},
    }
    match &element.value {
        Some(value) => {
            if !text_is_blank(value.as_str()) {
                let labelled = String::from_str("[\u{8f93}\u{5165}\u{6846}\u{5185}\u{5bb9}] ").concat(
                    value.as_str(),
                );
                return Some(labelled);
            }
        },
        None => {},
    }
    None
}

/// The text an element offers for a report: the text extracted from a
/// text-relevant element, unless it was the last one reported or is too
/// short.
fn offer(element: &Option<ElementSnapshot>, last_text: &String) -> (offered: Option<String>)
    ensures
        text_of(offered) == offered_text(element_of(*element), last_text@),
{
    match element {
        Some(e) => {
            if is_text_element(e) {
                match try_get_selected_text(e) {
                    Some(text) => {
                        if text != *last_text && text.as_str().unicode_len() >= MIN_REPORT_CHARS {
                            Some(text)
                        } else {
                            None
                        }
                    },
                    None => None,
                }
            } else {
                None
            }
        },
        None => None,
    }
}

impl Poller {
    /// A poller that has seen nothing yet.
    pub fn new() -> (poller: Poller)
        ensures
            poller@ == (PollerModel { last_window: None, last_text: Seq::empty() }),
    {
        Poller { last_window: None, last_text: String::new() }
    }

    /// Takes one tick's samples and gives the reports they call for, in
    /// order: a change of the foreground window, text of the focused
    /// element, text under the pointer. The pointer sample is `None` where
    /// the pointer's position could not be had. A text that was reported
    /// last is not reported again. A tick without a foreground window
    /// reports nothing and is forgotten.
    pub fn tick(&mut self, focus: &FocusSample, pointer: Option<&PointerSample>) -> (reports: Vec<
        PollReport,
    >)
        ensures
            reports_of(reports@) == tick_reports(old(self)@, focus@, pointer_of(pointer)),
            final(self)@ == tick_poller(old(self)@, focus@, pointer_of(pointer)),
    {
        let mut reports: Vec<PollReport> = Vec::new();
        assert(reports_of(reports@) == Seq::<PollReportModel>::empty());
        if focus.window_handle == 0 {
            return reports;
        }
        let changed = match self.last_window {
            Some(window) => window != focus.window_handle,
            None => true,
        };
        if changed {
            let ghost before = reports@;
            reports.push(
                PollReport::FocusChanged {
                    window: focus.window_handle,
                    title: focus.window_title.clone(),
                },
            );
            assert(reports_of(reports@) == reports_of(before).push(
                PollReportModel::FocusChanged {
                    window: focus.window_handle,
                    title: focus.window_title@,
                },
            ));
            self.last_window = Some(focus.window_handle);
        }
        match offer(&focus.element, &self.last_text) {
            Some(text) => {
                let ghost before = reports@;
                reports.push(PollReport::FocusedText(text.clone()));
                assert(reports_of(reports@) == reports_of(before).push(
                    PollReportModel::FocusedText(text@),
                ));
                self.last_text = text;
            },
            None => {},
        }
        match pointer {
            Some(p) => {
                if p.window_handle != 0 && p.window_handle != focus.window_handle {
                    match offer(&p.element, &self.last_text) {
                        Some(text) => {
                            let ghost before = reports@;
                            reports.push(PollReport::PointerText(text.clone()));
                            assert(reports_of(reports@) == reports_of(before).push(
                                PollReportModel::PointerText(text@),
                            ));
                            self.last_text = text;
                        },
                        None => {},
                    }
                }
            },
            None => {},
        }
        reports
    }
}

} // verus!
