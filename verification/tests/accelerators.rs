use smol_str::SmolStr;
use web_canvas::canvas::{Canvas, CanvasNodes, WindowAttributes};
use web_canvas::defaults::BrowserDefaults;
use web_canvas::keyboard::{
    is_clipboard_accelerator, is_clipboard_shortcut, KeyReport, KeyboardEvent,
};
use web_canvas::types::{NodeId, WindowId};

fn canvas(prevent_default: bool, keyboard: bool) -> Canvas {
    let nodes = CanvasNodes {
        window: NodeId(0),
        document: NodeId(1),
        canvas: NodeId(2),
        textarea: NodeId(3),
        password: NodeId(4),
    };
    let mut attr = WindowAttributes {
        canvas: None,
        append: false,
        focusable: false,
        prevent_default,
        browser_defaults: BrowserDefaults {
            touch: false,
            keyboard,
            wheel: false,
            context_menu: false,
            clipboard: false,
        },
        inner_size: false,
        min_inner_size: false,
        max_inner_size: false,
        position: false,
        fullscreen: false,
        active: false,
    };
    Canvas::create(WindowId(1), nodes, &mut attr, false).0
}

fn event(key: &str, ctrl_key: bool, is_composing: bool) -> KeyboardEvent {
    KeyboardEvent {
        key: key.to_string(),
        ctrl_key,
        meta_key: false,
        shift_key: false,
        alt_key: false,
        is_composing,
        repeat: true,
    }
}

fn prevented(canvas: &Canvas, event: &KeyboardEvent) -> bool {
    canvas.handle_keyboard_event(event, 1u8, 2u8, None, 3u8, 4u8).prevent_default
}

#[test]
fn recognizes_browser_clipboard_accelerators() {
    assert!(is_clipboard_accelerator("c", false, true, false, false));
    assert!(is_clipboard_accelerator("V", true, false, false, false));
    assert!(is_clipboard_accelerator("Insert", true, false, false, false));
    assert!(is_clipboard_accelerator("Delete", false, false, true, false));
}

#[test]
fn does_not_release_unrelated_or_alt_graph_chords() {
    assert!(!is_clipboard_accelerator("a", false, true, false, false));
    assert!(!is_clipboard_accelerator("v", true, false, false, true));
    assert!(!is_clipboard_accelerator("v", false, false, false, false));
}

#[test]
fn chords_ignore_the_case_of_ascii_letters() {
    for key in ["insert", "INSERT", "iNsErT"] {
        assert!(is_clipboard_accelerator(key, false, false, true, false));
    }
    for key in ["x", "X"] {
        assert!(is_clipboard_accelerator(key, true, false, false, false));
        assert!(is_clipboard_accelerator(key, false, true, true, false));
    }
}

#[test]
fn chords_need_the_right_modifier() {
    assert!(!is_clipboard_accelerator("Insert", false, true, false, false));
    assert!(!is_clipboard_accelerator("Delete", true, true, false, false));
    assert!(!is_clipboard_accelerator("c", false, false, true, false));
    assert!(!is_clipboard_accelerator("Insert", true, false, true, true));
    assert!(!is_clipboard_accelerator("", true, true, true, false));
    assert!(!is_clipboard_accelerator("cc", true, true, true, false));
    assert!(!is_clipboard_accelerator("\u{e7}", true, true, true, false));
}

#[test]
fn a_shortcut_is_read_off_the_event() {
    assert!(is_clipboard_shortcut(&event("C", true, false)));
    assert!(!is_clipboard_shortcut(&event("C", false, false)));
    let mut with_alt = event("C", true, false);
    with_alt.alt_key = true;
    assert!(!is_clipboard_shortcut(&with_alt));
    let mut shift_delete = event("Delete", false, false);
    shift_delete.shift_key = true;
    assert!(is_clipboard_shortcut(&shift_delete));
    let mut meta_v = event("v", false, false);
    meta_v.meta_key = true;
    assert!(is_clipboard_shortcut(&meta_v));
}

#[test]
fn the_browser_keeps_compositions_and_clipboard_chords() {
    let canvas = canvas(true, false);
    assert!(prevented(&canvas, &event("a", false, false)));
    assert!(prevented(&canvas, &event("a", true, false)));
    assert!(!prevented(&canvas, &event("a", false, true)));
    assert!(!prevented(&canvas, &event("c", true, false)));
}

#[test]
fn keys_that_are_left_to_the_browser_are_not_withheld() {
    assert!(!prevented(&canvas(true, true), &event("a", false, false)));
    assert!(!prevented(&canvas(false, false), &event("a", false, false)));
    assert!(!prevented(&canvas(false, true), &event("a", false, false)));
}

#[test]
fn a_key_is_reported_as_it_is() {
    let response = canvas(true, false).handle_keyboard_event(
        &event("a", false, false),
        "KeyA",
        'a',
        Some(SmolStr::new("a")),
        0u8,
        7u32,
    );
    assert_eq!(
        response.report,
        KeyReport {
            physical_key: "KeyA",
            key: 'a',
            text: Some(SmolStr::new("a")),
            location: 0u8,
            repeat: true,
            modifiers: 7u32,
        }
    );
}
