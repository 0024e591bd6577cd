use tasktide::discovery::discover_window;
use tasktide::discovery::WindowInfo;

fn win(handle: u64, class: &str, title: &str) -> WindowInfo {
    WindowInfo {
        handle,
        class: class.to_string(),
        title: title.to_string(),
    }
}

#[test]
fn class_table_match_wins_over_title_match() {
    let windows = vec![
        win(1, "Chrome_WidgetWin_1", "WINWORD.EXE viewer"),
        win(2, "OpusApp", "Report.docx - Word"),
    ];
    // The class of the well-known executable is searched first, so the title
    // match on window 1 is never consulted.
    assert_eq!(discover_window(&windows, "WINWORD.EXE"), Some(2));
}

#[test]
fn falls_back_to_exact_title_match() {
    let windows = vec![
        win(5, "SomeClass", "other"),
        win(6, "AnotherClass", "myapp.exe"),
    ];
    assert_eq!(discover_window(&windows, "myapp.exe"), Some(6));
}

#[test]
fn falls_back_to_substring_title_match() {
    let windows = vec![
        win(5, "SomeClass", "other"),
        win(7, "AnotherClass", "running: myapp.exe (42)"),
    ];
    assert_eq!(discover_window(&windows, "myapp.exe"), Some(7));
}

#[test]
fn falls_back_to_case_insensitive_title_match() {
    let windows = vec![
        win(5, "SomeClass", "other"),
        win(8, "AnotherClass", "MyApp.Exe - session"),
    ];
    assert_eq!(discover_window(&windows, "myapp.exe"), Some(8));
}

#[test]
fn first_match_in_enumeration_order_is_taken() {
    let windows = vec![
        win(10, "A", "myapp.exe"),
        win(11, "B", "myapp.exe"),
    ];
    assert_eq!(discover_window(&windows, "myapp.exe"), Some(10));
}

#[test]
fn known_class_absent_falls_back_to_title() {
    // The table maps the name to a class, but no window of that class is
    // open; the title steps still run.
    let windows = vec![win(3, "SomeClass", "notepad.exe - scratch")];
    assert_eq!(discover_window(&windows, "notepad.exe"), Some(3));
}

#[test]
fn no_window_found_is_a_valid_outcome() {
    let windows = vec![win(1, "A", "alpha"), win(2, "B", "beta")];
    assert_eq!(discover_window(&windows, "gamma.exe"), None);
    let empty: Vec<WindowInfo> = Vec::new();
    assert_eq!(discover_window(&empty, "anything"), None);
}
