use selection_capture::menu::{parse_choice, MenuChoice};

#[test]
fn digits_select_the_modes() {
    assert_eq!(parse_choice("1"), MenuChoice::ClipboardPolling);
    assert_eq!(parse_choice("2"), MenuChoice::Accessibility);
    assert_eq!(parse_choice("3"), MenuChoice::GlobalHook);
}

#[test]
fn q_in_either_case_quits() {
    assert_eq!(parse_choice("q"), MenuChoice::Quit);
    assert_eq!(parse_choice("Q"), MenuChoice::Quit);
}

#[test]
fn whitespace_around_the_choice_does_not_count() {
    assert_eq!(parse_choice("1\n"), MenuChoice::ClipboardPolling);
    assert_eq!(parse_choice("2\r\n"), MenuChoice::Accessibility);
    assert_eq!(parse_choice("  3\t"), MenuChoice::GlobalHook);
    assert_eq!(parse_choice("\u{3000}q\u{00A0}\n"), MenuChoice::Quit);
}

#[test]
fn anything_else_is_invalid() {
    for line in ["", "\n", "   ", "4", "0", "12", "1 2", "1 1", "quit", "x", "q!", "１", "1\u{200B}"] {
        assert_eq!(parse_choice(line), MenuChoice::Invalid, "{:?}", line);
    }
}

#[test]
fn choice_agrees_with_trimming() {
    for line in ["1", " 1", "1 ", " 1 ", "\t2\n", "3\r\n", " q", "Q ", "11", " 1 1 ", "a", ""] {
        let expected = match line.trim() {
            "1" => MenuChoice::ClipboardPolling,
            "2" => MenuChoice::Accessibility,
            "3" => MenuChoice::GlobalHook,
            "q" | "Q" => MenuChoice::Quit,
            _ => MenuChoice::Invalid,
        };
        assert_eq!(parse_choice(line), expected, "{:?}", line);
    }
}
