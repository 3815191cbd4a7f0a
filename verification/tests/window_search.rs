use watershot::engine::{Engine, ExitState, Key};
use watershot::rect::Rect;
use watershot::selection::Selection;
use watershot::window::{
    FindWindowExt, WindowDescriptor, WindowSearchAttribute, WindowSearchParam,
};

fn rect(x: i32, y: i32, width: i32, height: i32) -> Rect {
    Rect {
        x,
        y,
        width,
        height,
    }
}

fn window(title: &str, class: &str, r: Rect) -> WindowDescriptor {
    WindowDescriptor {
        initial_title: title.to_string(),
        title: title.to_string(),
        initial_class: class.to_string(),
        class: class.to_string(),
        rect: r,
    }
}

fn sample_windows() -> Vec<WindowDescriptor> {
    vec![
        window("hello", "term", rect(0, 0, 400, 300)),
        window("helllo world", "browser", rect(200, 100, 600, 400)),
        window("other", "term", rect(100, 50, 300, 300)),
    ]
}

#[test]
fn test_window_search_param_from_str() {
    let params_and_expected = [
        ("initial_title=^hello$", WindowSearchAttribute::InitialTitle),
        ("title=^hello$", WindowSearchAttribute::Title),
        ("initial_class=^hello$", WindowSearchAttribute::InitialClass),
        ("class=^hello$", WindowSearchAttribute::Class),
    ];

    for (param_str, expected) in params_and_expected {
        let param: Result<WindowSearchParam, String> = param_str.parse();

        assert!(param.is_ok());

        let param = param.unwrap();

        assert_eq!(param.attribute, expected, "Parsing {param_str}");
        assert_eq!(param.value, "^hello$");
    }
}

#[test]
fn search_param_rejects_bad_input() {
    let missing: Result<WindowSearchParam, String> = "no separator".parse();
    assert!(missing.is_err());

    let bad_attr: Result<WindowSearchParam, String> = "titles=^x$".parse();
    match bad_attr {
        Err(message) => assert_eq!(message, "Invalid search attribute \"titles\""),
        Ok(_) => panic!("an unknown attribute must be rejected"),
    }

    let bad_value: Result<WindowSearchParam, String> = "title=(".parse();
    match bad_value {
        Err(message) => assert_eq!(message, "Invalid search value \"(\""),
        Ok(_) => panic!("an invalid pattern must be rejected"),
    }

    // The pattern may itself contain the separator.
    let nested: WindowSearchParam = "class=a=b".parse().unwrap();
    assert_eq!(nested.attribute, WindowSearchAttribute::Class);
    assert_eq!(nested.value, "a=b");
}

#[test]
fn find_by_position_picks_the_topmost_window() {
    let windows = sample_windows();
    // (250, 150) lies in all three; the first (topmost) wins.
    let hit = windows.find_by_position(&(250, 150)).unwrap();
    assert_eq!(hit.title, "hello");
    // (700, 400) lies only in the second.
    let hit = windows.find_by_position(&(700, 400)).unwrap();
    assert_eq!(hit.title, "helllo world");
    assert!(windows.find_by_position(&(2000, 2000)).is_none());
}

#[test]
fn find_by_search_param_matches_as_a_regex() {
    let windows = sample_windows();
    // "hel+o" must match by repetition, not by literal comparison: this
    // fails if the matcher compared strings instead of applying the
    // pattern.
    let param: WindowSearchParam = "title=^hel+o .*$".parse().unwrap();
    let hit = windows.find_by_search_param(param).unwrap();
    assert_eq!(hit.title, "helllo world");

    let param: WindowSearchParam = "class=^term$".parse().unwrap();
    let hit = windows.find_by_search_param(param.clone()).unwrap();
    assert_eq!(hit.title, "hello");

    let param: WindowSearchParam = "class=^nothing$".parse().unwrap();
    assert!(windows.find_by_search_param(param).is_none());
}

#[test]
fn window_mode_picks_flattens_and_commits() {
    let mut engine = Engine::new(10);
    engine.add_monitor(rect(0, 0, 1920, 1080));
    engine.set_windows(sample_windows());
    engine.key_press(Key::Tab);
    engine.key_press(Key::Tab);
    assert!(matches!(engine.selection, Selection::Window(None)));

    // Press inside the third window only.
    engine.pointer_press(0, (120, 320));
    match &engine.selection {
        Selection::Window(Some(w)) => assert_eq!(w.title, "other"),
        _ => panic!("expected a window pick"),
    }

    // Committing flattens the window into its rectangle.
    engine.key_press(Key::Return);
    assert_eq!(engine.exit, ExitState::ExitWithSelection(rect(100, 50, 300, 300)));

    // Tab out of window mode flattens into an inactive rectangle selection.
    engine.key_press(Key::Tab);
    match &engine.selection {
        Selection::Rectangle(Some(sel)) => {
            assert_eq!(sel.extents.to_rect(), rect(100, 50, 300, 300));
            assert!(!sel.active);
            assert_eq!(sel.modifier, None);
        }
        _ => panic!("expected a flattened rectangle selection"),
    }
}

#[test]
fn seeding_picks_a_window_before_the_first_paint() {
    let mut engine = Engine::new(10);
    engine.add_monitor(rect(0, 0, 1920, 1080));
    engine.set_windows(sample_windows());

    let param: WindowSearchParam = "initial_class=^browser$".parse().unwrap();
    engine.seed_window_search(param);
    match &engine.selection {
        Selection::Window(Some(w)) => assert_eq!(w.title, "helllo world"),
        _ => panic!("expected a window pick"),
    }

    engine.seed_window_at((120, 320));
    match &engine.selection {
        Selection::Window(Some(w)) => assert_eq!(w.title, "other"),
        _ => panic!("expected a window pick"),
    }

    engine.seed_window(None);
    assert!(matches!(engine.selection, Selection::Window(None)));

    // Auto-capture flattens a seeded window pick and commits it.
    engine.seed_window(Some(window("focused", "term", rect(10, 20, 30, 40))));
    engine.try_auto_capture();
    assert_eq!(engine.exit, ExitState::ExitWithSelection(rect(10, 20, 30, 40)));
}
