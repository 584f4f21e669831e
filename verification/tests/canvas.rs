use web_canvas::answers::Answer;
use web_canvas::canvas::{Canvas, CanvasNodes, Insets, WindowAttributes};
use web_canvas::clipboard::{WebClipboardAction, WebClipboardEvent, CLIPBOARD_FORMAT};
use web_canvas::command::{Action, Command, Declaration, Failure, OnFailure, Script};
use web_canvas::defaults::{BrowserDefault, BrowserDefaults};
use web_canvas::ime::{ControlState, Controls};
use web_canvas::input::{
    Ime, ImePurpose, ImeReport, InputEvent, WebImeConfiguration, WebSelectionDirection,
    WebTextInputEvent,
};
use web_canvas::listener::{
    EventListenerHandle, IntersectionObserverHandle, MediaQueryListHandle, PointerHandler,
    ResizeScaleHandle,
};
use web_canvas::types::{NodeId, PhysicalSize, ReadError, WindowId};

const DOCUMENT: NodeId = NodeId(1);
const RAW: NodeId = NodeId(2);
const TEXTAREA: NodeId = NodeId(3);
const PASSWORD: NodeId = NodeId(4);
const ELSEWHERE: NodeId = NodeId(5);

const NOTHING: BrowserDefaults = BrowserDefaults {
    touch: false,
    keyboard: false,
    wheel: false,
    context_menu: false,
    clipboard: false,
};

fn canvas() -> Canvas {
    let nodes = CanvasNodes {
        window: NodeId(0),
        document: DOCUMENT,
        canvas: RAW,
        textarea: TEXTAREA,
        password: PASSWORD,
    };
    let mut attr = WindowAttributes {
        canvas: None,
        append: false,
        focusable: false,
        prevent_default: true,
        browser_defaults: NOTHING,
        inner_size: false,
        min_inner_size: false,
        max_inner_size: false,
        position: false,
        fullscreen: false,
        active: false,
    };
    Canvas::create(WindowId(7), nodes, &mut attr, false).0
}

fn attempt(action: Action<String>) -> Command<String> {
    Command { action, on_failure: OnFailure::Ignore }
}

fn set_value(node: NodeId, value: &str) -> Command<String> {
    attempt(Action::SetValue { node, value: value.to_string() })
}

fn set(node: NodeId, name: &str, value: &str) -> Command<String> {
    attempt(Action::SetAttribute { node, name: name.to_string(), value: value.to_string() })
}

fn remove(node: NodeId, name: &str) -> Command<String> {
    attempt(Action::RemoveAttribute { node, name: name.to_string() })
}

fn select(node: NodeId, start: u32, end: u32, direction: &str) -> Command<String> {
    attempt(Action::SetSelectionRange { node, start, end, direction: direction.to_string() })
}

fn heard(target: NodeId, event: &'static str) -> EventListenerHandle {
    EventListenerHandle { target, event }
}

fn heard_twice(event: &'static str) -> Vec<EventListenerHandle> {
    vec![heard(TEXTAREA, event), heard(PASSWORD, event)]
}

fn size(width: u32, height: u32) -> PhysicalSize {
    PhysicalSize { width, height }
}

fn controls(value: &str) -> Controls {
    Controls {
        textarea: ControlState {
            value: value.to_string(),
            selection_start: Ok(Some(2)),
            selection_end: Ok(Some(4)),
            selection_direction: Ok(Some("forward".to_string())),
        },
        password: ControlState {
            value: "hidden".to_string(),
            selection_start: Err(ReadError),
            selection_end: Ok(None),
            selection_direction: Ok(None),
        },
    }
}

fn configuration() -> WebImeConfiguration {
    WebImeConfiguration {
        secure: false,
        name: "user".to_string(),
        input_mode: "email".to_string(),
        enter_key_hint: String::new(),
        autocomplete: "email".to_string(),
        autocapitalize: "off".to_string(),
        autocorrect: true,
        spellcheck: false,
        aria_label: "Address".to_string(),
        required: true,
        invalid: false,
        aria_description: String::new(),
    }
}

#[test]
fn the_cursor_is_locked_to_the_canvas() {
    assert_eq!(
        canvas().set_cursor_lock(true),
        Ok(attempt(Action::RequestPointerLock { node: RAW }))
    );
    assert_eq!(
        canvas().set_cursor_lock(false),
        Ok(attempt(Action::ExitPointerLock { document: DOCUMENT }))
    );
}

#[test]
fn an_attribute_of_the_canvas_must_be_valid() {
    assert_eq!(
        canvas().set_attribute("data-x", "1"),
        Command {
            action: Action::SetAttribute {
                node: RAW,
                name: "data-x".to_string(),
                value: "1".to_string()
            },
            on_failure: OnFailure::Panic("Set attribute: data-x".to_string()),
        }
    );
}

#[test]
fn a_canvas_that_is_laid_out_has_insets() {
    let insets = Insets {
        border_left: "border-left-width",
        padding_left: "padding-left",
        border_top: "border-top-width",
        padding_top: "padding-top",
    };
    assert_eq!(canvas().position(true, "block"), Some(insets));
    assert_eq!(canvas().position(true, ""), Some(insets));
    assert_eq!(canvas().position(true, "none"), None);
    assert_eq!(canvas().position(false, "block"), None);
}

#[test]
fn sizes_are_kept_apart() {
    let mut canvas = canvas();
    canvas.set_old_size(size(1, 2));
    canvas.set_current_size(size(3, 4));
    assert_eq!(canvas.old_size(), size(1, 2));
    assert_eq!(canvas.inner_size(), size(3, 4));
}

#[test]
fn the_parts_of_the_page_are_known() {
    let canvas = canvas();
    assert_eq!(canvas.window(), NodeId(0));
    assert_eq!(canvas.document(), DOCUMENT);
    assert_eq!(canvas.raw(), RAW);
    assert_eq!(canvas.style().write, Declaration::Inline(RAW));
    assert_eq!(canvas.style().read, Declaration::Computed(RAW));
}

#[test]
fn allowing_text_moves_the_focus_once() {
    let mut canvas = canvas();
    assert_eq!(canvas.set_ime_allowed(false), None);
    assert_eq!(canvas.set_ime_allowed(true), Some(attempt(Action::Focus { node: TEXTAREA })));
    assert_eq!(canvas.set_ime_allowed(true), None);
    assert_eq!(canvas.set_ime_allowed(false), Some(attempt(Action::Focus { node: RAW })));
    canvas.ime_element.password_active = true;
    assert_eq!(canvas.set_ime_allowed(true), Some(attempt(Action::Focus { node: PASSWORD })));
    assert!(canvas.ime_allowed);
}

#[test]
fn the_active_control_is_put_at_the_cursor() {
    let style = Declaration::Inline(TEXTAREA);
    assert_eq!(
        canvas().set_ime_cursor_area("12.5", "-3"),
        vec![
            attempt(Action::SetProperty {
                style,
                property: "left".to_string(),
                value: "12.5px".to_string()
            }),
            attempt(Action::SetProperty {
                style,
                property: "top".to_string(),
                value: "-3px".to_string()
            }),
        ]
    );
}

#[test]
fn every_purpose_takes_text() {
    for purpose in [ImePurpose::Normal, ImePurpose::Password, ImePurpose::Terminal] {
        assert_eq!(
            canvas().set_ime_purpose(purpose),
            vec![set(TEXTAREA, "inputmode", "text"), remove(PASSWORD, "inputmode")]
        );
    }
}

#[test]
fn a_new_text_is_written_and_its_selection_clamped() {
    let canvas = canvas();
    assert_eq!(
        canvas.set_ime_text_state(
            &controls("old"),
            "a\u{1f600}b",
            1,
            9,
            WebSelectionDirection::Backward
        ),
        vec![
            set_value(TEXTAREA, "a\u{1f600}b"),
            set_value(PASSWORD, ""),
            select(TEXTAREA, 1, 4, "backward")
        ]
    );
    assert_eq!(
        canvas.set_ime_text_state(&controls("old"), "", 3, 3, WebSelectionDirection::Undirected),
        vec![set_value(TEXTAREA, ""), set_value(PASSWORD, ""), select(TEXTAREA, 0, 0, "none")]
    );
}

#[test]
fn a_text_that_is_there_is_not_written_again() {
    let mut canvas = canvas();
    assert_eq!(
        canvas.set_ime_text_state(&controls("same"), "same", 4, 2, WebSelectionDirection::Forward),
        vec![select(TEXTAREA, 4, 2, "forward")]
    );
    canvas.ime_element.password_active = true;
    assert_eq!(
        canvas.set_ime_text_state(
            &controls("same"),
            "hidden",
            0,
            u32::MAX,
            WebSelectionDirection::Undirected
        ),
        vec![select(PASSWORD, 0, 6, "none")]
    );
}

#[test]
fn a_configuration_is_presented_by_the_active_control() {
    let mut canvas = canvas();
    let commands = canvas.set_web_ime_configuration(&configuration(), Some(TEXTAREA));
    assert_eq!(
        commands,
        vec![
            set(TEXTAREA, "name", "user"),
            remove(PASSWORD, "name"),
            set(TEXTAREA, "inputmode", "email"),
            remove(PASSWORD, "inputmode"),
            remove(TEXTAREA, "enterkeyhint"),
            remove(PASSWORD, "enterkeyhint"),
            set(TEXTAREA, "autocomplete", "email"),
            remove(PASSWORD, "autocomplete"),
            set(TEXTAREA, "autocapitalize", "off"),
            remove(PASSWORD, "autocapitalize"),
            set(TEXTAREA, "autocorrect", "on"),
            remove(PASSWORD, "autocorrect"),
            set(TEXTAREA, "spellcheck", "false"),
            remove(PASSWORD, "spellcheck"),
            set(TEXTAREA, "aria-label", "Address"),
            remove(PASSWORD, "aria-label"),
            set(TEXTAREA, "aria-required", "true"),
            remove(PASSWORD, "aria-required"),
            set(TEXTAREA, "aria-invalid", "false"),
            remove(PASSWORD, "aria-invalid"),
            remove(TEXTAREA, "aria-description"),
            remove(PASSWORD, "aria-description"),
        ]
    );
    assert!(!canvas.ime_element.password_active);
}

#[test]
fn a_secure_configuration_switches_first() {
    let mut canvas = canvas();
    let mut configuration = configuration();
    configuration.secure = true;
    configuration.autocorrect = false;
    configuration.invalid = true;
    let commands = canvas.set_web_ime_configuration(&configuration, Some(TEXTAREA));
    assert_eq!(commands.len(), 3 + 22);
    assert_eq!(
        commands[..4],
        [
            set_value(TEXTAREA, ""),
            set_value(PASSWORD, ""),
            attempt(Action::Focus { node: PASSWORD }),
            set(PASSWORD, "name", "user"),
        ]
    );
    assert!(commands.contains(&set(PASSWORD, "autocorrect", "off")));
    assert!(commands.contains(&remove(TEXTAREA, "autocorrect")));
    assert!(commands.contains(&set(PASSWORD, "aria-invalid", "true")));
    assert!(canvas.ime_element.password_active);
}

#[test]
fn the_screen_and_frames_are_asked_for() {
    let canvas = canvas();
    assert_eq!(
        canvas.request_fullscreen(),
        attempt(Action::RequestFullscreen { document: DOCUMENT, node: RAW })
    );
    assert_eq!(
        canvas.exit_fullscreen(),
        attempt(Action::ExitFullscreen { document: DOCUMENT, node: RAW })
    );
    assert_eq!(canvas.request_animation_frame(), attempt(Action::RequestAnimationFrame));
}

#[test]
fn a_size_that_is_kept_is_reported_once() {
    let mut canvas = canvas();
    assert_eq!(canvas.begin_scale_change(size(10, 20)), (WindowId(7), size(10, 20)));
    assert_eq!(canvas.inner_size(), size(10, 20));
    assert_eq!(
        canvas.handle_scale_change(size(10, 20), size(10, 20)),
        vec![attempt(Action::SendResized { id: WindowId(7), size: size(10, 20) })]
    );
    assert_eq!(canvas.old_size(), size(10, 20));
    assert_eq!(canvas.handle_scale_change(size(10, 20), size(10, 20)), vec![]);
}

#[test]
fn another_size_is_left_to_the_observer() {
    let mut canvas = canvas();
    canvas.begin_scale_change(size(10, 20));
    assert_eq!(
        canvas.handle_scale_change(size(10, 20), size(30, 20)),
        vec![
            attempt(Action::Resize { node: RAW, size: size(30, 20) }),
            Command {
                action: Action::NotifyResize { observed: false },
                on_failure: OnFailure::Panic("expected Window to still be active".to_string()),
            },
        ]
    );
    assert_eq!(canvas.old_size(), size(0, 0));
    assert_eq!(canvas.inner_size(), size(10, 20));
}

#[test]
fn each_kind_is_withheld_by_itself() {
    let mut canvas = canvas();
    assert!(canvas.handle_touch_start());
    assert!(canvas.handle_mouse_wheel(Some(1i64), ()).prevent_default);
    assert!(canvas.handle_context_menu((1, 2), ()).prevent_default);
    canvas.browser_defaults.touch = true;
    assert!(!canvas.handle_touch_start());
    assert!(canvas.handle_mouse_wheel(Some(1i64), ()).prevent_default);
    canvas.browser_defaults.wheel = true;
    assert!(!canvas.handle_mouse_wheel(Some(1i64), ()).prevent_default);
    assert!(canvas.handle_context_menu((1, 2), ()).prevent_default);
    canvas.browser_defaults.context_menu = true;
    assert!(!canvas.handle_context_menu((1, 2), ()).prevent_default);
    canvas.browser_defaults = NOTHING;
    canvas.prevent_default = false;
    assert!(!canvas.handle_touch_start());
    assert!(!canvas.handle_mouse_wheel(Some(1i64), ()).prevent_default);
    assert!(!canvas.handle_context_menu((1, 2), ()).prevent_default);
}

#[test]
fn kinds_are_told_apart() {
    let kinds = [
        BrowserDefault::Touch,
        BrowserDefault::Keyboard,
        BrowserDefault::Wheel,
        BrowserDefault::ContextMenu,
        BrowserDefault::Clipboard,
    ];
    for (k, kind) in kinds.iter().enumerate() {
        let defaults = BrowserDefaults {
            touch: k == 0,
            keyboard: k == 1,
            wheel: k == 2,
            context_menu: k == 3,
            clipboard: k == 4,
        };
        for other in kinds {
            assert_eq!(defaults.contains(other), other == *kind);
        }
    }
}

#[test]
fn a_turn_of_the_wheel_is_reported_where_there_is_a_distance() {
    assert_eq!(canvas().handle_mouse_wheel(Some(5i64), 'm').report, Some((0, 5i64, 'm')));
    assert_eq!(canvas().handle_mouse_wheel(None::<i64>, 'm').report, None);
    let response = canvas().handle_context_menu((1, 2), 'm');
    assert_eq!((response.position, response.modifiers), ((1, 2), 'm'));
}

#[test]
fn the_focus_of_the_controls_is_the_focus_of_the_window() {
    let canvas = canvas();
    assert!(!canvas.handle_blur(Some(TEXTAREA)));
    assert!(!canvas.handle_blur(Some(PASSWORD)));
    assert!(canvas.handle_blur(Some(ELSEWHERE)));
    assert!(canvas.handle_blur(None));
    assert_eq!(
        canvas.handle_ime_focus(),
        vec![ImeReport::Focus(true), ImeReport::Ime(Ime::Enabled)]
    );
    assert_eq!(canvas.handle_ime_blur(Some(PASSWORD)), vec![]);
    assert_eq!(canvas.handle_ime_blur(Some(RAW)), vec![ImeReport::Ime(Ime::Disabled)]);
    for elsewhere in [Some(ELSEWHERE), None] {
        assert_eq!(
            canvas.handle_ime_blur(elsewhere),
            vec![ImeReport::Ime(Ime::Disabled), ImeReport::Focus(false)]
        );
    }
}

#[test]
fn a_composition_has_its_cursor_at_the_end() {
    let canvas = canvas();
    assert_eq!(
        canvas.handle_composition_start(Some("\u{306b}h".to_string())),
        Ime::Preedit("\u{306b}h".to_string(), Some((4, 4)))
    );
    assert_eq!(
        canvas.handle_composition_update(Some("ab".to_string())),
        Ime::Preedit("ab".to_string(), Some((2, 2)))
    );
    assert_eq!(
        canvas.handle_composition_update(None),
        Ime::Preedit(String::new(), Some((0, 0)))
    );
    assert_eq!(canvas.handle_composition_end(), Ime::Preedit(String::new(), None));
}

#[test]
fn an_announcement_fills_in_for_one_input() {
    let mut canvas = canvas();
    canvas.handle_before_input("insertText".to_string(), Some("x".to_string()), true);
    let bare = || InputEvent { input_type: String::new(), data: None, is_composing: true };
    assert_eq!(
        canvas.handle_text_input(&controls("value"), bare()),
        WebTextInputEvent {
            value: "value".to_string(),
            selection_start: 2,
            selection_end: 4,
            selection_direction: WebSelectionDirection::Forward,
            input_type: "insertText".to_string(),
            data: Some("x".to_string()),
            is_composing: true,
            before_input_cancelable: true,
        }
    );
    let second = canvas.handle_text_input(&controls("value"), bare());
    assert_eq!(second.input_type, "");
    assert_eq!(second.data, None);
    assert!(!second.before_input_cancelable);
}

#[test]
fn what_the_event_says_goes_before_the_announcement() {
    let mut canvas = canvas();
    canvas.handle_before_input("insertText".to_string(), Some("x".to_string()), false);
    let event = InputEvent {
        input_type: "deleteContent".to_string(),
        data: Some("y".to_string()),
        is_composing: false,
    };
    let report = canvas.handle_text_input(&controls("value"), event);
    assert_eq!(report.input_type, "deleteContent");
    assert_eq!(report.data, Some("y".to_string()));
    assert!(!report.is_composing);
}

#[test]
fn a_selection_that_cannot_be_read_is_at_the_start() {
    let mut canvas = canvas();
    canvas.ime_element.password_active = true;
    let event = InputEvent { input_type: String::new(), data: None, is_composing: false };
    let report = canvas.handle_text_input(&controls("value"), event);
    assert_eq!(report.value, "hidden");
    assert_eq!((report.selection_start, report.selection_end), (0, 0));
    assert_eq!(report.selection_direction, WebSelectionDirection::Undirected);
}

#[test]
fn directions_are_named() {
    let mut canvas = canvas();
    let directions = [
        ("backward", WebSelectionDirection::Backward),
        ("forward", WebSelectionDirection::Forward),
        ("none", WebSelectionDirection::Undirected),
    ];
    for (name, direction) in directions {
        let written = canvas.set_ime_text_state(&controls("v"), "v", 0, 0, direction);
        assert_eq!(written, vec![select(TEXTAREA, 0, 0, name)]);
        let mut held = controls("v");
        held.textarea.selection_direction = Ok(Some(name.to_string()));
        let event = InputEvent { input_type: String::new(), data: None, is_composing: false };
        assert_eq!(canvas.handle_text_input(&held, event).selection_direction, direction);
    }
    let mut held = controls("v");
    held.textarea.selection_direction = Ok(Some("Backward".to_string()));
    let event = InputEvent { input_type: String::new(), data: None, is_composing: false };
    assert_eq!(
        canvas.handle_text_input(&held, event).selection_direction,
        WebSelectionDirection::Undirected
    );
}

#[test]
fn listening_anew_forgets_an_announcement() {
    let mut canvas = canvas();
    canvas.handle_before_input("insertText".to_string(), None, true);
    canvas.on_text_input();
    let event = InputEvent { input_type: String::new(), data: None, is_composing: false };
    let report = canvas.handle_text_input(&controls("value"), event);
    assert_eq!(report.input_type, "");
    assert!(!report.before_input_cancelable);
}

#[test]
fn only_a_paste_into_the_window_carries_text() {
    let canvas = canvas();
    let data = || Some(Ok("clip".to_string()));
    for target in [RAW, TEXTAREA, PASSWORD] {
        assert_eq!(
            canvas.handle_clipboard(WebClipboardAction::Paste, Some(target), data()),
            Some(WebClipboardEvent::new(WebClipboardAction::Paste, Some("clip".to_string())))
        );
        for action in [WebClipboardAction::Copy, WebClipboardAction::Cut] {
            assert_eq!(
                canvas.handle_clipboard(action, Some(target), data()),
                Some(WebClipboardEvent::new(action, None))
            );
        }
    }
    for target in [Some(ELSEWHERE), Some(DOCUMENT), None] {
        assert_eq!(canvas.handle_clipboard(WebClipboardAction::Paste, target, data()), None);
    }
    for nothing in [None, Some(Err(ReadError))] {
        assert_eq!(
            canvas.handle_clipboard(WebClipboardAction::Paste, Some(RAW), nothing),
            Some(WebClipboardEvent::new(WebClipboardAction::Paste, None))
        );
    }
}

#[test]
fn an_answer_goes_to_the_clipboard_and_keeps_the_browser_out() {
    let mut canvas = canvas();
    canvas.browser_defaults.clipboard = true;
    let mut request = WebClipboardEvent::new(WebClipboardAction::Copy, None);
    request.respond("first".to_string());
    request.respond("copied".to_string());
    let response = canvas.finish_clipboard(&mut request, true);
    assert_eq!(response.set_data, Some("copied".to_string()));
    assert!(response.prevent_default);
    // The answer was taken.
    assert_eq!(request.take_response(), None);
    let response = canvas.finish_clipboard(&mut request, true);
    assert_eq!(response.set_data, None);
    assert!(!response.prevent_default);
    canvas.browser_defaults.clipboard = false;
    assert!(canvas.finish_clipboard(&mut request, true).prevent_default);
    canvas.prevent_default = false;
    assert!(!canvas.finish_clipboard(&mut request, true).prevent_default);
    request.respond("copied".to_string());
    let response = canvas.finish_clipboard(&mut request, false);
    assert_eq!(response.set_data, None);
    assert!(response.prevent_default);
}

#[test]
fn each_listener_is_in_its_place() {
    let mut canvas = canvas();
    canvas.on_touch_start();
    assert_eq!(canvas.on_touch_start, Some(heard(RAW, "touchstart")));
    canvas.on_blur();
    assert_eq!(canvas.on_blur, Some(heard(RAW, "blur")));
    canvas.on_focus();
    assert_eq!(canvas.on_focus, Some(heard(RAW, "focus")));
    canvas.on_keyboard_release();
    assert_eq!(canvas.on_keyboard_release, Some(heard(RAW, "keyup")));
    assert_eq!(canvas.on_ime_keyboard_release, heard_twice("keyup"));
    canvas.on_keyboard_press();
    assert_eq!(canvas.on_keyboard_press, Some(heard(RAW, "keydown")));
    assert_eq!(canvas.on_ime_keyboard_press, heard_twice("keydown"));
    canvas.on_mouse_wheel();
    assert_eq!(canvas.on_mouse_wheel, Some(heard(RAW, "wheel")));
    canvas.on_context_menu();
    assert_eq!(canvas.on_context_menu, Some(heard(RAW, "contextmenu")));
    canvas.on_ime();
    assert_eq!(canvas.on_ime_focus, heard_twice("focus"));
    assert_eq!(canvas.on_ime_blur, heard_twice("blur"));
    assert_eq!(canvas.on_composition_start, heard_twice("compositionstart"));
    assert_eq!(canvas.on_composition_update, heard_twice("compositionupdate"));
    assert_eq!(canvas.on_composition_end, heard_twice("compositionend"));
    canvas.on_text_input();
    assert_eq!(canvas.on_before_input, heard_twice("beforeinput"));
    assert_eq!(canvas.on_text_input, heard_twice("input"));
    assert_eq!(
        canvas.on_clipboard(),
        vec![
            (heard(DOCUMENT, "copy"), WebClipboardAction::Copy),
            (heard(DOCUMENT, "cut"), WebClipboardAction::Cut),
            (heard(DOCUMENT, "paste"), WebClipboardAction::Paste),
        ]
    );
    assert_eq!(canvas.on_copy, Some(heard(DOCUMENT, "copy")));
    assert_eq!(canvas.on_cut, Some(heard(DOCUMENT, "cut")));
    assert_eq!(canvas.on_paste, Some(heard(DOCUMENT, "paste")));
    canvas.on_dark_mode();
    assert_eq!(
        canvas.on_dark_mode,
        Some(MediaQueryListHandle { query: "(prefers-color-scheme: dark)" })
    );
    canvas.on_resize_scale();
    assert_eq!(canvas.on_resize_scale, Some(ResizeScaleHandle { target: RAW }));
    canvas.on_intersection();
    assert_eq!(canvas.on_intersect, Some(IntersectionObserverHandle { target: RAW }));
    assert_eq!(canvas.on_touch_end, None);
    assert_eq!(canvas.add_ime_events("x"), heard_twice("x"));
    assert_eq!(canvas.add_clipboard_listener("y"), heard(DOCUMENT, "y"));
}

#[test]
fn pointer_events_are_listened_to_one_by_one() {
    let mut canvas = canvas();
    canvas.on_cursor_leave();
    canvas.on_mouse_press();
    let mut expected = PointerHandler::new();
    expected.on_cursor_leave = true;
    expected.on_pointer_press = true;
    assert_eq!(canvas.pointer_handler, expected);
    canvas.on_cursor_enter();
    canvas.on_mouse_release();
    canvas.on_cursor_move();
    canvas.on_touch_cancel();
    expected.on_cursor_enter = true;
    expected.on_pointer_release = true;
    expected.on_cursor_move = true;
    expected.on_touch_cancel = true;
    assert_eq!(canvas.pointer_handler, expected);
    expected.remove_listeners();
    assert_eq!(expected, PointerHandler::new());
}

#[test]
fn pointers_are_handled_by_the_current_settings() {
    let mut canvas = canvas();
    canvas.set_ime_allowed(true);
    canvas.prevent_default = false;
    canvas.browser_defaults.touch = true;
    let context = canvas.pointer_context();
    assert_eq!(context.target, RAW);
    assert!(context.ime_allowed);
    assert!(!context.prevent_default);
    assert!(context.browser_defaults.touch);
    assert_eq!(context.ime_element, canvas.ime_element);
}

#[test]
fn everything_that_is_heard_is_given_up() {
    let mut canvas = canvas();
    canvas.on_touch_start();
    canvas.on_blur();
    canvas.on_focus();
    canvas.on_keyboard_release();
    canvas.on_keyboard_press();
    canvas.on_mouse_wheel();
    canvas.on_context_menu();
    canvas.on_ime();
    canvas.on_text_input();
    canvas.on_clipboard();
    canvas.on_dark_mode();
    canvas.on_resize_scale();
    canvas.on_intersection();
    canvas.on_cursor_move();
    let removal = canvas.remove_listeners();
    assert_eq!(removal.listeners.len(), 7 + 3 + 2 * 9);
    for (k, one) in removal.listeners.iter().enumerate() {
        assert!(!removal.listeners[k + 1..].contains(one));
    }
    assert_eq!(removal.listeners[0], heard(RAW, "touchstart"));
    assert!(removal.listeners.contains(&heard(PASSWORD, "input")));
    assert!(removal.dark_mode.is_some());
    assert_eq!(removal.resize_scale, Some(ResizeScaleHandle { target: RAW }));
    assert_eq!(removal.intersect, Some(IntersectionObserverHandle { target: RAW }));
    assert_eq!(
        removal.commands,
        vec![
            attempt(Action::RemovePointerListeners),
            attempt(Action::CancelAnimationFrame),
            attempt(Action::RemoveNode { node: TEXTAREA }),
            attempt(Action::RemoveNode { node: PASSWORD }),
        ]
    );
    assert_eq!(canvas.pointer_handler, PointerHandler::new());
    let again = canvas.remove_listeners();
    assert_eq!(again.listeners, vec![]);
    assert_eq!(again.dark_mode, None);
    assert_eq!(again.resize_scale, None);
    assert_eq!(again.intersect, None);
}

#[test]
fn what_was_written_is_what_input_reports() {
    let mut canvas = canvas();
    let commands = canvas.set_ime_text_state(
        &controls("old"),
        "\u{1f600}z",
        2,
        40,
        WebSelectionDirection::Backward,
    );
    let mut held = controls("old");
    for command in commands {
        match command.action {
            Action::SetValue { node, value } if node == TEXTAREA => held.textarea.value = value,
            Action::SetSelectionRange { node, start, end, direction } => {
                assert_eq!(node, TEXTAREA);
                held.textarea.selection_start = Ok(Some(start));
                held.textarea.selection_end = Ok(Some(end));
                held.textarea.selection_direction = Ok(Some(direction));
            },
            _ => {},
        }
    }
    let event = InputEvent { input_type: String::new(), data: None, is_composing: false };
    let report = canvas.handle_text_input(&held, event);
    assert_eq!(report.value, "\u{1f600}z");
    assert_eq!((report.selection_start, report.selection_end), (2, 3));
    assert_eq!(report.selection_direction, WebSelectionDirection::Backward);
}

#[test]
fn what_was_put_in_the_page_is_taken_out() {
    let nodes = CanvasNodes {
        window: NodeId(0),
        document: DOCUMENT,
        canvas: RAW,
        textarea: TEXTAREA,
        password: PASSWORD,
    };
    let mut attr = WindowAttributes {
        canvas: None,
        append: true,
        focusable: true,
        prevent_default: true,
        browser_defaults: NOTHING,
        inner_size: false,
        min_inner_size: false,
        max_inner_size: false,
        position: false,
        fullscreen: false,
        active: true,
    };
    let (mut canvas, mut commands) = Canvas::create(WindowId(7), nodes, &mut attr, false);
    commands.extend(canvas.remove_listeners().commands);
    let mut attached = vec![ELSEWHERE];
    for command in commands {
        match command.action {
            Action::AppendToBody { node } => attached.push(node),
            Action::RemoveNode { node } => attached.retain(|other| *other != node),
            _ => {},
        }
    }
    assert_eq!(attached, vec![ELSEWHERE, RAW]);
}

#[test]
fn text_is_on_the_clipboard_as_plain_text() {
    assert_eq!(CLIPBOARD_FORMAT, "text/plain");
}

#[test]
fn another_size_takes_an_observer() {
    for observed in [false, true] {
        let mut canvas = canvas();
        if observed {
            canvas.on_resize_scale();
        }
        assert_eq!(canvas.resize_observed(), observed);
        let mut script = Script::new(canvas.handle_scale_change(size(10, 20), size(30, 20)));
        assert_eq!(script.report(true), Ok(()));
        let succeeded = match script.command() {
            Some(command) => command.action == Action::NotifyResize { observed: true },
            None => panic!("the observer is notified"),
        };
        let expected = if observed {
            Ok(())
        } else {
            Err(Failure::Panic("expected Window to still be active".to_string()))
        };
        assert_eq!(script.report(succeeded), expected);
        assert_eq!(script.command(), None);
        // A size that is kept takes none.
        let kept = canvas.handle_scale_change(size(10, 20), size(10, 20));
        assert_eq!(
            kept,
            vec![attempt(Action::SendResized { id: WindowId(7), size: size(10, 20) })]
        );
        canvas.remove_listeners();
        assert!(!canvas.resize_observed());
    }
}

#[test]
fn the_clipboard_is_read_for_a_paste_into_the_window_alone() {
    let canvas = canvas();
    let actions =
        [WebClipboardAction::Copy, WebClipboardAction::Cut, WebClipboardAction::Paste];
    for action in actions {
        for target in [RAW, TEXTAREA, PASSWORD] {
            assert_eq!(
                canvas.reads_clipboard(action, Some(target)),
                action == WebClipboardAction::Paste
            );
        }
        for target in [Some(ELSEWHERE), Some(DOCUMENT), None] {
            assert!(!canvas.reads_clipboard(action, target));
        }
    }
}

#[test]
fn each_listener_has_its_answer() {
    let mut canvas = canvas();
    canvas.on_touch_start();
    canvas.on_blur();
    canvas.on_focus();
    canvas.on_keyboard_release();
    canvas.on_keyboard_press();
    canvas.on_mouse_wheel();
    canvas.on_context_menu();
    canvas.on_ime();
    canvas.on_text_input();
    let clipboard = canvas.on_clipboard();
    let outer = [
        ("touchstart", Answer::TouchStart),
        ("focus", Answer::Focus),
        ("blur", Answer::Blur),
        ("keyup", Answer::KeyRelease),
        ("keydown", Answer::KeyPress),
        ("wheel", Answer::Wheel),
        ("contextmenu", Answer::ContextMenu),
    ];
    for (event, answer) in outer {
        assert_eq!(canvas.answer_to(heard(RAW, event)), Some(answer));
    }
    for (listener, action) in clipboard {
        assert_eq!(canvas.answer_to(listener), Some(Answer::Clipboard(action)));
    }
    let inner = [
        ("keyup", Answer::KeyRelease),
        ("keydown", Answer::KeyPress),
        ("focus", Answer::ImeFocus),
        ("blur", Answer::ImeBlur),
        ("compositionstart", Answer::CompositionStart),
        ("compositionupdate", Answer::CompositionUpdate),
        ("compositionend", Answer::CompositionEnd),
        ("beforeinput", Answer::BeforeInput),
        ("input", Answer::TextInput),
    ];
    for (event, answer) in inner {
        assert_eq!(canvas.answer_to(heard(TEXTAREA, event)), Some(answer));
        assert_eq!(canvas.answer_to(heard(PASSWORD, event)), Some(answer));
    }
    assert_eq!(canvas.answer_to(heard(RAW, "input")), None);
    assert_eq!(canvas.answer_to(heard(DOCUMENT, "focus")), None);
    assert_eq!(canvas.answer_to(heard(TEXTAREA, "wheel")), None);
    assert_eq!(canvas.answer_to(heard(ELSEWHERE, "focus")), None);
    // An answer stands for every listener.
    let before = canvas.ime_element;
    for listener in canvas.remove_listeners().listeners {
        assert!(canvas.answer_to(listener).is_some());
    }
    assert_eq!(canvas.ime_element, before);
}

#[test]
fn a_new_element_is_appended_whatever_is_said_of_it() {
    let nodes = CanvasNodes {
        window: NodeId(0),
        document: DOCUMENT,
        canvas: RAW,
        textarea: TEXTAREA,
        password: PASSWORD,
    };
    for (named, in_document, appended) in [
        (None, true, true),
        (None, false, true),
        (Some(ELSEWHERE), true, false),
        (Some(ELSEWHERE), false, true),
    ] {
        let mut attr = WindowAttributes {
            canvas: named,
            append: true,
            focusable: false,
            prevent_default: true,
            browser_defaults: NOTHING,
            inner_size: false,
            min_inner_size: false,
            max_inner_size: false,
            position: false,
            fullscreen: false,
            active: false,
        };
        let node = named.unwrap_or(RAW);
        let (_, commands) = Canvas::create(WindowId(7), nodes, &mut attr, in_document);
        assert_eq!(
            commands.iter().any(|command| command.action == Action::AppendToBody { node }),
            appended
        );
    }
}

#[test]
fn a_switch_is_told_beforehand() {
    let mut ime = canvas().ime_element;
    assert!(ime.switches(true));
    assert!(!ime.switches(false));
    ime.set_password_active(true, None);
    assert!(!ime.switches(true));
    assert!(ime.switches(false));
}
