use selection_capture::clipboard_poller::ClipboardWatch;
use selection_capture::codes::{
    MIN_REPORT_CHARS, POLL_INTERVAL_MS, UIA_DOCUMENT_CONTROL_TYPE, UIA_EDIT_CONTROL_TYPE,
    UIA_TEXT_CONTROL_TYPE,
};
use selection_capture::poller::{
    is_text_element, try_get_selected_text, ElementSnapshot, FocusSample, PointerSample,
    PollReport, Poller,
};
use selection_capture::window::get_window_info;

const LABEL: &str = "[输入框内容] ";

fn element(control_type: Option<u32>, selection: Option<Vec<Option<&str>>>, value: Option<&str>)
    -> ElementSnapshot {
    ElementSnapshot {
        control_type,
        selection: selection
            .map(|ranges| ranges.into_iter().map(|r| r.map(|t| t.to_string())).collect()),
        value: value.map(|v| v.to_string()),
    }
}

fn edit_with_selection(text: &str) -> ElementSnapshot {
    element(Some(UIA_EDIT_CONTROL_TYPE), Some(vec![Some(text)]), None)
}

fn sample(window: isize, element: Option<ElementSnapshot>) -> FocusSample {
    FocusSample { window_handle: window, window_title: format!("window {}", window), element }
}

fn pointer(window: isize, text: &str) -> PointerSample {
    PointerSample { window_handle: window, element: Some(edit_with_selection(text)) }
}

fn changed(window: isize) -> PollReport {
    PollReport::FocusChanged { window, title: format!("window {}", window) }
}

#[test]
fn edit_document_and_text_controls_are_text_elements() {
    for control_type in [UIA_EDIT_CONTROL_TYPE, UIA_DOCUMENT_CONTROL_TYPE, UIA_TEXT_CONTROL_TYPE] {
        assert!(is_text_element(&element(Some(control_type), None, None)));
    }
    for control_type in [0u32, 50000, 50003, 50005, 50033] {
        assert!(!is_text_element(&element(Some(control_type), None, None)));
    }
    assert!(!is_text_element(&element(None, Some(vec![Some("x")]), Some("y"))));
}

#[test]
fn selection_wins_over_value() {
    let e = element(Some(UIA_EDIT_CONTROL_TYPE), Some(vec![Some("picked")]), Some("whole field"));
    assert_eq!(try_get_selected_text(&e), Some("picked".to_string()));
}

#[test]
fn all_selected_ranges_are_joined() {
    let e = element(
        Some(UIA_DOCUMENT_CONTROL_TYPE),
        Some(vec![Some("one "), None, Some(""), Some("two"), Some(" three")]),
        None,
    );
    assert_eq!(try_get_selected_text(&e), Some("one two three".to_string()));
}

#[test]
fn blank_selection_falls_back_to_the_value() {
    let e = element(Some(UIA_EDIT_CONTROL_TYPE), Some(vec![Some("  "), Some("\n")]), Some("typed"));
    assert_eq!(try_get_selected_text(&e), Some(format!("{}typed", LABEL)));
}

#[test]
fn value_is_marked_as_input_field_content() {
    let e = element(Some(UIA_EDIT_CONTROL_TYPE), None, Some("typed"));
    let text = try_get_selected_text(&e).unwrap();
    assert_eq!(text, "[\u{8f93}\u{5165}\u{6846}\u{5185}\u{5bb9}] typed");
    assert!(text.starts_with(LABEL));
}

#[test]
fn nothing_is_found_without_selection_and_value() {
    assert_eq!(try_get_selected_text(&element(None, None, None)), None);
    assert_eq!(try_get_selected_text(&element(None, Some(vec![]), None)), None);
    assert_eq!(try_get_selected_text(&element(None, Some(vec![None]), Some(" \t"))), None);
    assert_eq!(try_get_selected_text(&element(None, None, Some(""))), None);
}

#[test]
fn first_tick_reports_the_window_and_the_text() {
    let mut poller = Poller::new();
    let reports = poller.tick(&sample(10, Some(edit_with_selection("hello"))), None);
    assert_eq!(
        reports,
        vec![changed(10), PollReport::FocusedText("hello".to_string())]
    );
    assert_eq!(poller.last_window, Some(10));
    assert_eq!(poller.last_text, "hello");
}

#[test]
fn same_window_and_same_text_report_nothing() {
    let mut poller = Poller::new();
    poller.tick(&sample(10, Some(edit_with_selection("hello"))), None);
    let reports = poller.tick(&sample(10, Some(edit_with_selection("hello"))), None);
    assert_eq!(reports, vec![]);
    assert_eq!(poller.last_text, "hello");
}

#[test]
fn new_text_in_the_same_window_is_reported() {
    let mut poller = Poller::new();
    poller.tick(&sample(10, Some(edit_with_selection("hello"))), None);
    let reports = poller.tick(&sample(10, Some(edit_with_selection("world"))), None);
    assert_eq!(reports, vec![PollReport::FocusedText("world".to_string())]);
}

#[test]
fn window_change_is_reported_without_text() {
    let mut poller = Poller::new();
    poller.tick(&sample(10, None), None);
    let reports = poller.tick(&sample(11, None), None);
    assert_eq!(reports, vec![changed(11)]);
    assert_eq!(poller.tick(&sample(11, None), None), vec![]);
}

#[test]
fn tick_without_foreground_window_is_skipped() {
    let mut poller = Poller::new();
    poller.tick(&sample(10, Some(edit_with_selection("hello"))), None);
    let s = sample(0, Some(edit_with_selection("other")));
    assert_eq!(poller.tick(&s, Some(&pointer(12, "pointer"))), vec![]);
    assert_eq!(poller.last_window, Some(10));
    assert_eq!(poller.last_text, "hello");
}

#[test]
fn text_shorter_than_the_minimum_is_not_reported() {
    assert_eq!(MIN_REPORT_CHARS, 2);
    let mut poller = Poller::new();
    poller.tick(&sample(10, None), None);
    assert_eq!(poller.tick(&sample(10, Some(edit_with_selection("a"))), None), vec![]);
    assert_eq!(poller.last_text, "");
    assert_eq!(
        poller.tick(&sample(10, Some(edit_with_selection("ab"))), None),
        vec![PollReport::FocusedText("ab".to_string())]
    );
}

#[test]
fn minimum_length_counts_characters() {
    let mut poller = Poller::new();
    poller.tick(&sample(10, None), None);
    assert_eq!(poller.tick(&sample(10, Some(edit_with_selection("\u{6587}"))), None), vec![]);
    assert_eq!(
        poller.tick(&sample(10, Some(edit_with_selection("\u{6587}\u{5B57}"))), None),
        vec![PollReport::FocusedText("\u{6587}\u{5B57}".to_string())]
    );
}

#[test]
fn element_that_holds_no_text_is_passed_over() {
    let mut poller = Poller::new();
    poller.tick(&sample(10, None), None);
    let button = element(Some(50000), Some(vec![Some("caption")]), Some("value"));
    assert_eq!(poller.tick(&sample(10, Some(button)), None), vec![]);
}

#[test]
fn pointer_is_probed_over_another_window() {
    let mut poller = Poller::new();
    let s = sample(10, Some(edit_with_selection("focused")));
    assert_eq!(
        poller.tick(&s, Some(&pointer(20, "under pointer"))),
        vec![
            changed(10),
            PollReport::FocusedText("focused".to_string()),
            PollReport::PointerText("under pointer".to_string()),
        ]
    );
    assert_eq!(poller.last_text, "under pointer");
}

#[test]
fn pointer_is_probed_even_where_the_focused_element_is_missing() {
    let mut poller = Poller::new();
    let s = sample(10, None);
    assert_eq!(
        poller.tick(&s, Some(&pointer(20, "under pointer"))),
        vec![changed(10), PollReport::PointerText("under pointer".to_string())]
    );
}

#[test]
fn pointer_over_the_foreground_window_is_not_probed() {
    let mut poller = Poller::new();
    for pointer_window in [Some(10), Some(0), None] {
        let p = pointer_window.map(|window| pointer(window, "under pointer"));
        let reports = poller.tick(&sample(10, None), p.as_ref());
        assert!(!reports.iter().any(|r| matches!(r, PollReport::PointerText(_))));
    }
    assert_eq!(poller.last_text, "");
}

#[test]
fn pointer_text_equal_to_the_focused_text_is_reported_once() {
    let mut poller = Poller::new();
    let s = sample(10, Some(edit_with_selection("shared")));
    assert_eq!(
        poller.tick(&s, Some(&pointer(20, "shared"))),
        vec![changed(10), PollReport::FocusedText("shared".to_string())]
    );
}

#[test]
fn focus_change_carries_the_title_of_the_sample() {
    let mut poller = Poller::new();
    let s = FocusSample { window_handle: 10, window_title: "Notepad".to_string(), element: None };
    assert_eq!(
        poller.tick(&s, None),
        vec![PollReport::FocusChanged { window: 10, title: "Notepad".to_string() }]
    );
    let renamed =
        FocusSample { window_handle: 10, window_title: "Notepad *".to_string(), element: None };
    assert_eq!(poller.tick(&renamed, None), vec![]);
}

#[test]
fn pointer_element_that_could_not_be_had_reports_nothing() {
    let mut poller = Poller::new();
    let p = PointerSample { window_handle: 20, element: None };
    assert_eq!(poller.tick(&sample(10, None), Some(&p)), vec![changed(10)]);
}

#[test]
fn poll_interval_is_half_a_second() {
    assert_eq!(POLL_INTERVAL_MS, 500);
}

#[test]
fn window_title_is_decoded_from_the_written_units() {
    let mut buffer = [0u16; 16];
    let title: Vec<u16> = "Notepad".encode_utf16().collect();
    buffer[..title.len()].copy_from_slice(&title);
    assert_eq!(get_window_info(&buffer, title.len() as i32), "Notepad");
    assert_eq!(get_window_info(&buffer, 3), "Not");
}

#[test]
fn window_title_replaces_ill_formed_units() {
    let buffer = [0x0041u16, 0xD800, 0x0042];
    assert_eq!(get_window_info(&buffer, 3), "A\u{FFFD}B");
    let pair = [0xD83Du16, 0xDE00];
    assert_eq!(get_window_info(&pair, 2), "\u{1F600}");
}

#[test]
fn window_without_title_is_unknown() {
    let buffer = [0x0041u16; 8];
    assert_eq!(get_window_info(&buffer, 0), "未知窗口");
    assert_eq!(get_window_info(&buffer, -1), "未知窗口");
    assert_eq!(get_window_info(&buffer, 9), "未知窗口");
    assert_eq!(get_window_info(&[], 0), "\u{672a}\u{77e5}\u{7a97}\u{53e3}");
    assert_eq!(get_window_info(&buffer, 8), "AAAAAAAA");
}

#[test]
fn clipboard_watch_reports_changes_only() {
    let mut watch = ClipboardWatch::new("first".to_string());
    assert_eq!(watch.observe("first".to_string()), None);
    assert_eq!(watch.observe("second".to_string()), Some("second".to_string()));
    assert_eq!(watch.previous, "second");
    assert_eq!(watch.observe("second".to_string()), None);
    assert_eq!(watch.observe("first".to_string()), Some("first".to_string()));
}

#[test]
fn clipboard_watch_passes_over_the_empty_text() {
    let mut watch = ClipboardWatch::new("first".to_string());
    assert_eq!(watch.observe(String::new()), None);
    assert_eq!(watch.previous, "first");
    assert_eq!(watch.observe("first".to_string()), None);
    let mut fresh = ClipboardWatch::new(String::new());
    assert_eq!(fresh.observe(String::new()), None);
    assert_eq!(fresh.observe(" ".to_string()), Some(" ".to_string()));
}
