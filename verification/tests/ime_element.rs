use web_canvas::command::{Action, Command, Declaration, OnFailure};
use web_canvas::ime::{ControlState, Controls, ImeElement};
use web_canvas::types::{NodeId, ReadError};

const TEXTAREA: NodeId = NodeId(3);
const PASSWORD: NodeId = NodeId(4);

fn element(password_active: bool) -> ImeElement {
    ImeElement { textarea: TEXTAREA, password: PASSWORD, password_active }
}

fn attempt(action: Action<String>) -> Command<String> {
    Command { action, on_failure: OnFailure::Ignore }
}

fn value(node: NodeId, value: &str) -> Command<String> {
    attempt(Action::SetValue { node, value: value.to_string() })
}

fn controls() -> Controls {
    Controls {
        textarea: ControlState {
            value: "plain".to_string(),
            selection_start: Ok(Some(1)),
            selection_end: Ok(None),
            selection_direction: Err(ReadError),
        },
        password: ControlState {
            value: "secret".to_string(),
            selection_start: Err(ReadError),
            selection_end: Ok(Some(5)),
            selection_direction: Ok(Some("backward".to_string())),
        },
    }
}

#[test]
fn creation_makes_and_prepares_both_controls() {
    let (ime, commands) = ImeElement::create(TEXTAREA, PASSWORD);
    assert_eq!(ime, element(false));
    assert_eq!(commands.len(), 27);
    assert_eq!(
        commands[0],
        Command {
            action: Action::CreateElement { node: TEXTAREA, tag: "textarea".to_string() },
            on_failure: OnFailure::Error("Failed to create IME textarea".to_string()),
        }
    );
    assert_eq!(
        commands[1],
        Command {
            action: Action::CreateElement { node: PASSWORD, tag: "input".to_string() },
            on_failure: OnFailure::Error("Failed to create IME password input".to_string()),
        }
    );
    assert_eq!(
        commands[2],
        attempt(Action::SetInputType { node: PASSWORD, kind: "password".to_string() })
    );
    for (first, node) in [(3, TEXTAREA), (15, PASSWORD)] {
        assert_eq!(commands[first], attempt(Action::SetTabIndex { node, index: -1 }));
        for (k, name) in ["autocomplete", "autocapitalize"].iter().enumerate() {
            assert_eq!(
                commands[first + 1 + k],
                attempt(Action::SetAttribute {
                    node,
                    name: name.to_string(),
                    value: "off".to_string()
                })
            );
        }
        let properties = [
            ("position", "fixed"),
            ("width", "1px"),
            ("height", "1px"),
            ("opacity", "0"),
            ("pointer-events", "none"),
            ("resize", "none"),
            ("overflow", "hidden"),
        ];
        for (k, (property, value)) in properties.iter().enumerate() {
            assert_eq!(
                commands[first + 3 + k],
                attempt(Action::SetProperty {
                    style: Declaration::Inline(node),
                    property: property.to_string(),
                    value: value.to_string()
                })
            );
        }
        assert_eq!(
            commands[first + 10],
            Command {
                action: Action::FindBody,
                on_failure: OnFailure::Panic("Failed to get body from document".to_string()),
            }
        );
        assert_eq!(
            commands[first + 11],
            Command {
                action: Action::AppendToBody { node },
                on_failure: OnFailure::Error("Failed to append IME element".to_string()),
            }
        );
    }
}

#[test]
fn one_control_is_active_at_a_time() {
    assert_eq!(element(false).active_html_element(), TEXTAREA);
    assert_eq!(element(false).inactive_html_element(), PASSWORD);
    assert_eq!(element(true).active_html_element(), PASSWORD);
    assert_eq!(element(true).inactive_html_element(), TEXTAREA);
    assert_eq!(element(true).html_elements(), [TEXTAREA, PASSWORD]);
    assert_eq!(element(true).event_targets(), [TEXTAREA, PASSWORD]);
    assert_eq!(element(true).style(), Declaration::Inline(PASSWORD));
    assert_eq!(element(false).focus(), attempt(Action::Focus { node: TEXTAREA }));
}

#[test]
fn the_controls_are_targets_of_their_own() {
    assert!(element(false).contains_target(TEXTAREA));
    assert!(element(false).contains_target(PASSWORD));
    assert!(!element(false).contains_target(NodeId(2)));
}

#[test]
fn a_text_goes_to_the_active_control_alone() {
    assert_eq!(element(false).set_value("abc"), vec![value(TEXTAREA, "abc"), value(PASSWORD, "")]);
    assert_eq!(element(true).set_value("abc"), vec![value(PASSWORD, "abc"), value(TEXTAREA, "")]);
}

#[test]
fn a_switch_empties_both_controls_and_moves_the_focus_along() {
    let mut ime = element(false);
    assert_eq!(
        ime.set_password_active(true, Some(TEXTAREA)),
        vec![value(TEXTAREA, ""), value(PASSWORD, ""), attempt(Action::Focus { node: PASSWORD })]
    );
    assert_eq!(ime, element(true));
    assert_eq!(
        ime.set_password_active(false, Some(NodeId(2))),
        vec![value(TEXTAREA, ""), value(PASSWORD, "")]
    );
    assert_eq!(ime, element(false));
    assert_eq!(
        ime.set_password_active(true, None),
        vec![value(TEXTAREA, ""), value(PASSWORD, "")]
    );
}

#[test]
fn no_switch_is_made_twice() {
    let mut ime = element(true);
    assert_eq!(ime.set_password_active(true, Some(PASSWORD)), vec![]);
    assert_eq!(ime, element(true));
}

#[test]
fn reads_go_to_the_active_control() {
    let controls = controls();
    assert_eq!(element(false).value(&controls), "plain");
    assert_eq!(element(true).value(&controls), "secret");
    assert_eq!(element(false).selection_start(&controls), Some(1));
    assert_eq!(element(false).selection_end(&controls), None);
    assert_eq!(element(true).selection_end(&controls), Some(5));
    assert_eq!(element(true).selection_direction(&controls), Some("backward".to_string()));
}

#[test]
fn a_refused_read_finds_nothing() {
    let controls = controls();
    assert_eq!(element(true).selection_start(&controls), None);
    assert_eq!(element(false).selection_direction(&controls), None);
}

#[test]
fn an_attribute_is_on_the_active_control_alone() {
    assert_eq!(
        element(true).set_attribute("inputmode", "numeric"),
        vec![
            attempt(Action::SetAttribute {
                node: PASSWORD,
                name: "inputmode".to_string(),
                value: "numeric".to_string()
            }),
            attempt(Action::RemoveAttribute { node: TEXTAREA, name: "inputmode".to_string() }),
        ]
    );
    assert_eq!(
        element(true).remove_attribute("name"),
        vec![
            attempt(Action::RemoveAttribute { node: TEXTAREA, name: "name".to_string() }),
            attempt(Action::RemoveAttribute { node: PASSWORD, name: "name".to_string() }),
        ]
    );
}

#[test]
fn a_selection_is_made_in_the_active_control() {
    assert_eq!(
        element(false).set_selection_range(2, 3, "forward"),
        attempt(Action::SetSelectionRange {
            node: TEXTAREA,
            start: 2,
            end: 3,
            direction: "forward".to_string()
        })
    );
    assert_eq!(
        element(false).remove(),
        vec![
            attempt(Action::RemoveNode { node: TEXTAREA }),
            attempt(Action::RemoveNode { node: PASSWORD }),
        ]
    );
}
