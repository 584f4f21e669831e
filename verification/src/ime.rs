//! The two hidden text controls through which input methods and on-screen keyboards write: a text
//! area, and a password field for secure input. One of them is active at a time.

use vstd::prelude::*;

use crate::command::{attempt, listing, or_error, or_panic, Action, Command, Declaration};
use crate::types::{NodeId, ReadError};

verus! {

/// What a text control holds at a moment, as the page gives it.
#[derive(Debug)]
pub struct ControlState {
    pub value: String,
    pub selection_start: Result<Option<u32>, ReadError>,
    pub selection_end: Result<Option<u32>, ReadError>,
    pub selection_direction: Result<Option<String>, ReadError>,
}

/// What the two text controls hold at a moment.
#[derive(Debug)]
pub struct Controls {
    pub textarea: ControlState,
    pub password: ControlState,
}

/// What a read came to; a read that was refused found nothing.
pub open spec fn found<T>(read: Result<Option<T>, ReadError>) -> Option<T> {
    match read {
        Ok(value) => value,
        Err(_) => None,
    }
}

/// The two text controls.
#[derive(Clone, Copy, PartialEq, Eq, Debug, Structural)]
pub struct ImeElement {
    pub textarea: NodeId,
    pub password: NodeId,
    /// The password field is the active control.
    pub password_active: bool,
}

/// What makes a new text control invisible and part of the page.
pub open spec fn preparation(node: NodeId) -> Seq<Command<Seq<char>>> {
    let style = Declaration::Inline(node);
    seq![
        attempt(Action::SetTabIndex { node, index: (-1) as i32 }),
        attempt(Action::SetAttribute { node, name: "autocomplete"@, value: "off"@ }),
        attempt(Action::SetAttribute { node, name: "autocapitalize"@, value: "off"@ }),
        attempt(Action::SetProperty { style, property: "position"@, value: "fixed"@ }),
        attempt(Action::SetProperty { style, property: "width"@, value: "1px"@ }),
        attempt(Action::SetProperty { style, property: "height"@, value: "1px"@ }),
        attempt(Action::SetProperty { style, property: "opacity"@, value: "0"@ }),
        attempt(Action::SetProperty { style, property: "pointer-events"@, value: "none"@ }),
        attempt(Action::SetProperty { style, property: "resize"@, value: "none"@ }),
        attempt(Action::SetProperty { style, property: "overflow"@, value: "hidden"@ }),
        or_panic(Action::FindBody, "Failed to get body from document"@),
        or_error(Action::AppendToBody { node }, "Failed to append IME element"@),
    ]
}

/// What makes the elements of the two text controls.
pub open spec fn control_elements(textarea: NodeId, password: NodeId) -> Seq<Command<Seq<char>>> {
    seq![
        or_error(
            Action::CreateElement { node: textarea, tag: "textarea"@ },
            "Failed to create IME textarea"@,
        ),
        or_error(
            Action::CreateElement { node: password, tag: "input"@ },
            "Failed to create IME password input"@,
        ),
        attempt(Action::SetInputType { node: password, kind: "password"@ }),
    ]
}

/// What makes the two text controls.
pub open spec fn creation(textarea: NodeId, password: NodeId) -> Seq<Command<Seq<char>>> {
    control_elements(textarea, password) + preparation(textarea) + preparation(password)
}

fn set_style(node: NodeId, property: &str, value: &str) -> (r: Command<String>)
    ensures
        r@ == attempt(
            Action::SetProperty {
                style: Declaration::Inline(node),
                property: property@,
                value: value@,
            },
        ),
{
    Command::attempt(
        Action::SetProperty {
            style: Declaration::Inline(node),
            property: property.to_owned(),
            value: value.to_owned(),
        },
    )
}

fn set_attribute(node: NodeId, name: &str, value: &str) -> (r: Command<String>)
    ensures
        r@ == attempt(Action::SetAttribute { node, name: name@, value: value@ }),
{
    Command::attempt(Action::SetAttribute { node, name: name.to_owned(), value: value.to_owned() })
}

fn remove_attribute(node: NodeId, name: &str) -> (r: Command<String>)
    ensures
        r@ == attempt(Action::RemoveAttribute { node, name: name@ }),
{
    Command::attempt(Action::RemoveAttribute { node, name: name.to_owned() })
}

fn set_value(node: NodeId, value: &str) -> (r: Command<String>)
    ensures
        r@ == attempt(Action::SetValue { node, value: value@ }),
{
    Command::attempt(Action::SetValue { node, value: value.to_owned() })
}

fn prepare(node: NodeId, commands: &mut Vec<Command<String>>)
    ensures
        listing(final(commands)@) == listing(old(commands)@) + preparation(node),
{
    commands.push(Command::attempt(Action::SetTabIndex { node, index: -1 }));
    commands.push(set_attribute(node, "autocomplete", "off"));
    commands.push(set_attribute(node, "autocapitalize", "off"));
    commands.push(set_style(node, "position", "fixed"));
    commands.push(set_style(node, "width", "1px"));
    commands.push(set_style(node, "height", "1px"));
    commands.push(set_style(node, "opacity", "0"));
    commands.push(set_style(node, "pointer-events", "none"));
    commands.push(set_style(node, "resize", "none"));
    commands.push(set_style(node, "overflow", "hidden"));
    commands.push(Command::or_panic(Action::FindBody, "Failed to get body from document"));
    commands.push(Command::or_error(Action::AppendToBody { node }, "Failed to append IME element"));
    assert(listing(commands@) =~= listing(old(commands)@) + preparation(node));
}

impl ImeElement {
    /// The control that takes the input.
    pub open spec fn active(self) -> NodeId {
        if self.password_active {
            self.password
        } else {
            self.textarea
        }
    }

    /// The other control.
    pub open spec fn inactive(self) -> NodeId {
        if self.password_active {
            self.textarea
        } else {
            self.password
        }
    }

    /// The node is one of the two controls.
    pub open spec fn owns(self, node: NodeId) -> bool {
        node == self.textarea || node == self.password
    }

    /// The state of the active control.
    pub open spec fn active_state(self, controls: Controls) -> ControlState {
        if self.password_active {
            controls.password
        } else {
            controls.textarea
        }
    }

    /// What gives the active control a text; the other control loses its own.
    pub open spec fn value_commands(self, value: Seq<char>) -> Seq<Command<Seq<char>>> {
        seq![
            attempt(Action::SetValue { node: self.active(), value }),
            attempt(Action::SetValue { node: self.inactive(), value: ""@ }),
        ]
    }

    /// What gives the active control an attribute; the other control loses it.
    pub open spec fn attribute_commands(self, name: Seq<char>, value: Seq<char>) -> Seq<
        Command<Seq<char>>,
    > {
        seq![
            attempt(Action::SetAttribute { node: self.active(), name, value }),
            attempt(Action::RemoveAttribute { node: self.inactive(), name }),
        ]
    }

    /// What takes an attribute from both controls.
    pub open spec fn removal_commands(self, name: Seq<char>) -> Seq<Command<Seq<char>>> {
        seq![
            attempt(Action::RemoveAttribute { node: self.textarea, name }),
            attempt(Action::RemoveAttribute { node: self.password, name }),
        ]
    }

    /// What makes a change of the active control: both texts go, and the focus moves along where
    /// one of the controls has it.
    pub open spec fn switch_commands(self, active: bool, focused: Option<NodeId>) -> Seq<
        Command<Seq<char>>,
    > {
        let switched = ImeElement { password_active: active, ..self };
        if self.password_active == active {
            seq![]
        } else {
            let cleared = seq![
                attempt(Action::SetValue { node: self.textarea, value: ""@ }),
                attempt(Action::SetValue { node: self.password, value: ""@ }),
            ];
            if focused matches Some(node) && self.owns(node) {
                cleared.push(attempt(Action::Focus { node: switched.active() }))
            } else {
                cleared
            }
        }
    }

    /// What takes the controls out of the page.
    pub open spec fn remove_commands(self) -> Seq<Command<Seq<char>>> {
        seq![
            attempt(Action::RemoveNode { node: self.textarea }),
            attempt(Action::RemoveNode { node: self.password }),
        ]
    }

    /// Makes the controls, to be known as `textarea` and `password`. The text area is active.
    pub fn create(textarea: NodeId, password: NodeId) -> (r: (Self, Vec<Command<String>>))
        ensures
            r.0 == (ImeElement { textarea, password, password_active: false }),
            listing(r.1@) == creation(textarea, password),
    {
        let mut commands: Vec<Command<String>> = Vec::new();
        commands.push(
            Command::or_error(
                Action::CreateElement { node: textarea, tag: "textarea".to_owned() },
                "Failed to create IME textarea",
            ),
        );
        commands.push(
            Command::or_error(
                Action::CreateElement { node: password, tag: "input".to_owned() },
                "Failed to create IME password input",
            ),
        );
        commands.push(
            Command::attempt(
                Action::SetInputType { node: password, kind: "password".to_owned() },
            ),
        );
        let this = ImeElement { textarea, password, password_active: false };
        let elements = this.html_elements();
        prepare(elements[0], &mut commands);
        prepare(elements[1], &mut commands);
        assert(listing(commands@) =~= creation(textarea, password));
        (this, commands)
    }

    pub fn html_elements(&self) -> (r: [NodeId; 2])
        ensures
            r@ == seq![self.textarea, self.password],
    {
        let r = [self.textarea, self.password];
        assert(r@ =~= seq![self.textarea, self.password]);
        r
    }

    pub fn event_targets(&self) -> (r: [NodeId; 2])
        ensures
            r@ == seq![self.textarea, self.password],
    {
        self.html_elements()
    }

    pub fn active_html_element(&self) -> (r: NodeId)
        ensures
            r == self.active(),
    {
        if self.password_active {
            self.password
        } else {
            self.textarea
        }
    }

    pub fn inactive_html_element(&self) -> (r: NodeId)
        ensures
            r == self.inactive(),
    {
        if self.password_active {
            self.textarea
        } else {
            self.password
        }
    }

    /// Whether the target is one of the two controls.
    pub fn contains_target(&self, target: NodeId) -> (r: bool)
        ensures
            r == self.owns(target),
    {
        let targets = self.event_targets();
        targets[0] == target || targets[1] == target
    }

    /// Moves the focus to the active control.
    pub fn focus(&self) -> (r: Command<String>)
        ensures
            r@ == attempt(Action::Focus { node: self.active() }),
    {
        Command::attempt(Action::Focus { node: self.active_html_element() })
    }

    /// The style of the active control.
    pub fn style(&self) -> (r: Declaration)
        ensures
            r == Declaration::Inline(self.active()),
    {
        Declaration::Inline(self.active_html_element())
    }

    /// Whether it takes a change of the active control to make the password field active, or the
    /// text area.
    pub fn switches(&self, active: bool) -> (r: bool)
        ensures
            r == (self.password_active != active),
    {
        self.password_active != active
    }

    /// Makes the password field the active control, or the text area. `focused` is the element of
    /// the document that has the focus; it is of no account where nothing switches.
    pub fn set_password_active(&mut self, active: bool, focused: Option<NodeId>) -> (r: Vec<
        Command<String>,
    >)
        ensures
            *final(self) == (ImeElement { password_active: active, ..*old(self) }),
            listing(r@) == old(self).switch_commands(active, focused),
    {
        let mut commands: Vec<Command<String>> = Vec::new();
        if self.switches(active) {
            let was_focused = match focused {
                Some(target) => self.contains_target(target),
                None => false,
            };
            commands.push(set_value(self.textarea, ""));
            commands.push(set_value(self.password, ""));
            self.password_active = active;
            if was_focused {
                commands.push(self.focus());
            }
        }
        assert(listing(commands@) =~= old(self).switch_commands(active, focused));
        commands
    }

    /// The text of the active control.
    pub fn value(&self, controls: &Controls) -> (r: String)
        ensures
            r == self.active_state(*controls).value,
    {
        if self.password_active {
            controls.password.value.clone()
        } else {
            controls.textarea.value.clone()
        }
    }

    /// Gives the active control a text and empties the other one.
    pub fn set_value(&self, value: &str) -> (r: Vec<Command<String>>)
        ensures
            listing(r@) == self.value_commands(value@),
    {
        let mut commands: Vec<Command<String>> = Vec::new();
        if self.password_active {
            commands.push(set_value(self.password, value));
            commands.push(set_value(self.textarea, ""));
        } else {
            commands.push(set_value(self.textarea, value));
            commands.push(set_value(self.password, ""));
        }
        assert(listing(commands@) =~= self.value_commands(value@));
        commands
    }

    pub fn selection_start(&self, controls: &Controls) -> (r: Option<u32>)
        ensures
            r == found(self.active_state(*controls).selection_start),
    {
        let read = if self.password_active {
            &controls.password.selection_start
        } else {
            &controls.textarea.selection_start
        };
        match read {
            Ok(start) => *start,
            Err(_) => None,
        }
    }

    pub fn selection_end(&self, controls: &Controls) -> (r: Option<u32>)
        ensures
            r == found(self.active_state(*controls).selection_end),
    {
        let read = if self.password_active {
            &controls.password.selection_end
        } else {
            &controls.textarea.selection_end
        };
        match read {
            Ok(end) => *end,
            Err(_) => None,
        }
    }

    pub fn selection_direction(&self, controls: &Controls) -> (r: Option<String>)
        ensures
            r == found(self.active_state(*controls).selection_direction),
    {
        let read = if self.password_active {
            &controls.password.selection_direction
        } else {
            &controls.textarea.selection_direction
        };
        match read {
            Ok(Some(direction)) => Some(direction.clone()),
            Ok(None) => None,
            Err(_) => None,
        }
    }

    /// Selects a range of UTF-16 code units in the active control.
    pub fn set_selection_range(&self, start: u32, end: u32, direction: &str) -> (r: Command<String>)
        ensures
            r@ == attempt(
                Action::SetSelectionRange {
                    node: self.active(),
                    start,
                    end,
                    direction: direction@,
                },
            ),
    {
        Command::attempt(
            Action::SetSelectionRange {
                node: self.active_html_element(),
                start,
                end,
                direction: direction.to_owned(),
            },
        )
    }

    /// Gives the active control an attribute and takes it from the other one.
    pub fn set_attribute(&self, name: &str, value: &str) -> (r: Vec<Command<String>>)
        ensures
            listing(r@) == self.attribute_commands(name@, value@),
    {
        let mut commands: Vec<Command<String>> = Vec::new();
        commands.push(set_attribute(self.active_html_element(), name, value));
        commands.push(remove_attribute(self.inactive_html_element(), name));
        assert(listing(commands@) =~= self.attribute_commands(name@, value@));
        commands
    }

    /// Takes an attribute from both controls.
    pub fn remove_attribute(&self, name: &str) -> (r: Vec<Command<String>>)
        ensures
            listing(r@) == self.removal_commands(name@),
    {
        let elements = self.html_elements();
        let mut commands: Vec<Command<String>> = Vec::new();
        commands.push(remove_attribute(elements[0], name));
        commands.push(remove_attribute(elements[1], name));
        assert(listing(commands@) =~= self.removal_commands(name@));
        commands
    }

    /// Takes the controls out of the page.
    pub fn remove(&self) -> (r: Vec<Command<String>>)
        ensures
            listing(r@) == self.remove_commands(),
    {
        let mut commands: Vec<Command<String>> = Vec::new();
        commands.push(Command::attempt(Action::RemoveNode { node: self.textarea }));
        commands.push(Command::attempt(Action::RemoveNode { node: self.password }));
        assert(listing(commands@) =~= self.remove_commands());
        commands
    }
}

} // verus!
