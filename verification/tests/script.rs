use web_canvas::canvas::{Canvas, CanvasNodes, WindowAttributes};
use web_canvas::command::{Action, Command, Declaration, Failure, OnFailure, Placement, Script};
use web_canvas::common::{Common, Style};
use web_canvas::defaults::BrowserDefaults;
use web_canvas::ime::ImeElement;
use web_canvas::listener::{EventListenerHandle, PointerHandler};
use web_canvas::text::{same_text, spells, to_ascii_lowercase, utf16_units};
use web_canvas::types::{NodeId, PhysicalSize, WindowId};

const NODES: CanvasNodes = CanvasNodes {
    window: NodeId(0),
    document: NodeId(1),
    canvas: NodeId(2),
    textarea: NodeId(3),
    password: NodeId(4),
};

fn attributes() -> WindowAttributes {
    WindowAttributes {
        canvas: None,
        append: true,
        focusable: true,
        prevent_default: true,
        browser_defaults: BrowserDefaults {
            touch: false,
            keyboard: true,
            wheel: false,
            context_menu: true,
            clipboard: false,
        },
        inner_size: true,
        min_inner_size: true,
        max_inner_size: true,
        position: true,
        fullscreen: true,
        active: true,
    }
}

/// Runs commands of which those at the given places fail; gives the number of commands that were
/// carried out, too.
fn run(commands: Vec<Command<String>>, failing: &[usize]) -> (usize, Result<(), Failure<String>>) {
    let mut script = Script::new(commands);
    let mut carried_out = 0;
    while script.command().is_some() {
        let result = script.report(!failing.contains(&carried_out));
        carried_out += 1;
        if result.is_err() {
            assert!(script.command().is_none());
            return (carried_out, result);
        }
    }
    (carried_out, Ok(()))
}

fn commands(attr: WindowAttributes, in_document: bool) -> Vec<Command<String>> {
    let mut attr = attr;
    Canvas::create(WindowId(9), NODES, &mut attr, in_document).1
}

fn os(message: &str) -> Result<(), Failure<String>> {
    Err(Failure::Os(message.to_string()))
}

fn fatal(message: &str) -> Result<(), Failure<String>> {
    Err(Failure::Panic(message.to_string()))
}

#[test]
fn a_new_canvas_has_its_initial_state() {
    let mut attr = attributes();
    attr.canvas = Some(NodeId(8));
    let (canvas, _) = Canvas::create(WindowId(9), NODES, &mut attr, true);
    assert_eq!(attr.canvas, None);
    assert!(attr.append);
    assert_eq!(
        canvas.common,
        Common {
            window: NodeId(0),
            document: NodeId(1),
            raw: NodeId(8),
            style: Style {
                read: Declaration::Computed(NodeId(8)),
                write: Declaration::Inline(NodeId(8))
            },
            old_size: PhysicalSize { width: 0, height: 0 },
            current_size: PhysicalSize { width: 0, height: 0 },
        }
    );
    assert_eq!(canvas.id, WindowId(9));
    assert!(!canvas.has_focus);
    assert!(canvas.prevent_default);
    assert_eq!(canvas.browser_defaults, attr.browser_defaults);
    assert_eq!(canvas.is_intersecting, None);
    assert_eq!(
        canvas.ime_element,
        ImeElement { textarea: NodeId(3), password: NodeId(4), password_active: false }
    );
    assert!(!canvas.ime_allowed);
    assert_eq!(canvas.pointer_handler, PointerHandler::new());
    let mut canvas = canvas;
    assert_eq!(canvas.remove_listeners().listeners, vec![]);
}

#[test]
fn a_canvas_is_made_in_order() {
    let commands = commands(attributes(), false);
    assert_eq!(commands.len(), 4 + 2 + 27 + 1 + 6);
    assert_eq!(
        commands[0].action,
        Action::CreateElement { node: NodeId(2), tag: "canvas".to_string() }
    );
    assert_eq!(commands[1].action, Action::FindBody);
    assert_eq!(commands[2].action, Action::AppendToBody { node: NodeId(2) });
    assert_eq!(
        commands[3].action,
        Action::SetAttribute {
            node: NodeId(2),
            name: "tabindex".to_string(),
            value: "0".to_string()
        }
    );
    assert_eq!(
        commands[4].action,
        Action::QueryComputedStyle { window: NodeId(0), node: NodeId(2) }
    );
    assert_eq!(commands[5].action, Action::TakeComputedStyle { node: NodeId(2) });
    assert_eq!(
        commands[6].action,
        Action::CreateElement { node: NodeId(3), tag: "textarea".to_string() }
    );
    let node = NodeId(2);
    let placements = [
        Action::MakeCursor { node },
        Action::Place { node, what: Placement::InnerSize },
        Action::Place { node, what: Placement::MinInnerSize },
        Action::Place { node, what: Placement::MaxInnerSize },
        Action::Place { node, what: Placement::Position },
        Action::RequestFullscreen { document: NodeId(1), node },
        Action::Focus { node },
    ];
    for (k, action) in placements.into_iter().enumerate() {
        assert_eq!(commands[33 + k], Command { action, on_failure: OnFailure::Ignore });
    }
}

#[test]
fn nothing_is_done_that_is_not_asked_for() {
    let mut attr = attributes();
    attr.canvas = Some(NodeId(8));
    attr.focusable = false;
    attr.inner_size = false;
    attr.min_inner_size = false;
    attr.max_inner_size = false;
    attr.position = false;
    attr.fullscreen = false;
    attr.active = false;
    // The element is in the document already.
    assert_eq!(commands(attr, true).len(), 2 + 27 + 1);
    // The element is to be appended.
    assert_eq!(commands(attr, false)[1].action, Action::AppendToBody { node: NodeId(8) });
    attr.append = false;
    assert_eq!(commands(attr, false).len(), 2 + 27 + 1);
}

#[test]
fn each_failure_has_its_message() {
    let expected = [
        (0, os("Failed to create canvas element")),
        (1, fatal("Failed to get body from document")),
        (2, fatal("Failed to append canvas to body")),
        (3, os("Failed to set a tabindex")),
        (4, fatal("Failed to obtain computed style")),
        (5, fatal("Invalid pseudo-element")),
        (6, os("Failed to create IME textarea")),
        (7, os("Failed to create IME password input")),
        (19, fatal("Failed to get body from document")),
        (20, os("Failed to append IME element")),
        (31, fatal("Failed to get body from document")),
        (32, os("Failed to append IME element")),
    ];
    for (place, failure) in expected {
        assert_eq!(run(commands(attributes(), false), &[place]), (place + 1, failure));
    }
}

#[test]
fn failures_of_no_account_are_passed_over() {
    let passed: Vec<usize> = (8..19).chain(21..31).chain(33..40).collect();
    assert_eq!(run(commands(attributes(), false), &passed), (40, Ok(())));
}

#[test]
fn the_first_failure_of_account_counts() {
    let result = run(commands(attributes(), false), &[9, 20, 32]);
    assert_eq!(result, (21, os("Failed to append IME element")));
    assert_eq!(run(commands(attributes(), false), &[]), (40, Ok(())));
}

#[test]
fn a_script_that_is_done_stays_done() {
    let mut script = Script::new(vec![]);
    assert!(script.command().is_none());
    assert_eq!(script.report(false), Ok(()));
    assert!(script.command().is_none());
}

#[test]
fn commands_say_what_their_failure_means() {
    assert_eq!(Command::attempt(Action::FindBody).on_failure, OnFailure::Ignore);
    assert_eq!(
        Command::or_error(Action::FindBody, "e").on_failure,
        OnFailure::Error("e".to_string())
    );
    assert_eq!(
        Command::or_panic(Action::FindBody, "p").on_failure,
        OnFailure::Panic("p".to_string())
    );
}

#[test]
fn styles_are_read_resolved_and_written_on_the_element() {
    let (style, obtained) = Style::new(NodeId(0), NodeId(2));
    assert_eq!(obtained.len(), 2);
    assert_eq!(
        style.get("display"),
        Command {
            action: Action::ReadProperty {
                style: Declaration::Computed(NodeId(2)),
                property: "display".to_string()
            },
            on_failure: OnFailure::Panic("Invalid property".to_string()),
        }
    );
    assert_eq!(
        style.set("width", "1px"),
        Command {
            action: Action::SetProperty {
                style: Declaration::Inline(NodeId(2)),
                property: "width".to_string(),
                value: "1px".to_string()
            },
            on_failure: OnFailure::Panic("Property is read only".to_string()),
        }
    );
    assert_eq!(
        style.remove("width"),
        Command {
            action: Action::RemoveProperty {
                style: Declaration::Inline(NodeId(2)),
                property: "width".to_string()
            },
            on_failure: OnFailure::Panic("Property is read only".to_string()),
        }
    );
}

#[test]
fn common_listeners_are_on_the_canvas() {
    let mut attr = attributes();
    let (canvas, _) = Canvas::create(WindowId(9), NODES, &mut attr, false);
    assert_eq!(canvas.common.raw(), NodeId(2));
    assert_eq!(
        canvas.common.add_event("blur"),
        EventListenerHandle { target: NodeId(2), event: "blur" }
    );
}

#[test]
fn texts_are_counted_and_compared() {
    assert_eq!(utf16_units(""), 0);
    assert_eq!(utf16_units("abc"), 3);
    assert_eq!(utf16_units("\u{e4}\u{20ac}"), 2);
    assert_eq!(utf16_units("\u{ffff}\u{10000}\u{1f600}"), 5);
    assert!(same_text("a\u{e4}", "a\u{e4}"));
    assert!(!same_text("a", "A"));
    assert!(!same_text("a", "ab"));
    assert_eq!(to_ascii_lowercase("aZ[@\u{c4}"), vec!['a', 'z', '[', '@', '\u{c4}']);
    assert!(spells(&vec!['a', 'b'], "ab"));
    assert!(!spells(&vec!['a', 'b'], "abc"));
    assert!(!spells(&vec!['a', 'b'], "a"));
    assert!(!spells(&vec!['a', 'b'], "ac"));
    assert!(spells(&vec![], ""));
}
