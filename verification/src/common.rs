//! The canvas element with what every part of the canvas shares: its page, style and sizes.

use vstd::prelude::*;

use crate::command::{listing, or_panic, Action, Command, Declaration};
use crate::ime::ImeElement;
use crate::listener::EventListenerHandle;
use crate::types::{NodeId, PhysicalSize};

verus! {

/// The style of the canvas: read as resolved, written on the element itself.
#[derive(Clone, Copy, PartialEq, Eq, Debug, Structural)]
pub struct Style {
    pub read: Declaration,
    pub write: Declaration,
}

/// The style of an element.
pub open spec fn style_of(canvas: NodeId) -> Style {
    Style { read: Declaration::Computed(canvas), write: Declaration::Inline(canvas) }
}

/// What obtains the style of an element.
pub open spec fn style_commands(window: NodeId, canvas: NodeId) -> Seq<Command<Seq<char>>> {
    seq![
        or_panic(
            Action::QueryComputedStyle { window, node: canvas },
            "Failed to obtain computed style"@,
        ),
        or_panic(Action::TakeComputedStyle { node: canvas }, "Invalid pseudo-element"@),
    ]
}

impl Style {
    /// Obtains the style of the canvas.
    pub fn new(window: NodeId, canvas: NodeId) -> (r: (Self, Vec<Command<String>>))
        ensures
            r.0 == style_of(canvas),
            listing(r.1@) == style_commands(window, canvas),
    {
        let mut commands: Vec<Command<String>> = Vec::new();
        commands.push(
            Command::or_panic(
                Action::QueryComputedStyle { window, node: canvas },
                "Failed to obtain computed style",
            ),
        );
        commands.push(
            Command::or_panic(
                Action::TakeComputedStyle { node: canvas },
                "Invalid pseudo-element",
            ),
        );
        assert(listing(commands@) =~= style_commands(window, canvas));
        (
            Style { read: Declaration::Computed(canvas), write: Declaration::Inline(canvas) },
            commands,
        )
    }

    /// Reads a property of the resolved style.
    pub fn get(&self, property: &str) -> (r: Command<String>)
        ensures
            r@ == or_panic(
                Action::ReadProperty { style: self.read, property: property@ },
                "Invalid property"@,
            ),
    {
        Command::or_panic(
            Action::ReadProperty { style: self.read, property: property.to_owned() },
            "Invalid property",
        )
    }

    /// Takes a property off the element.
    pub fn remove(&self, property: &str) -> (r: Command<String>)
        ensures
            r@ == or_panic(
                Action::RemoveProperty { style: self.write, property: property@ },
                "Property is read only"@,
            ),
    {
        Command::or_panic(
            Action::RemoveProperty { style: self.write, property: property.to_owned() },
            "Property is read only",
        )
    }

    /// Gives the element a property.
    pub fn set(&self, property: &str, value: &str) -> (r: Command<String>)
        ensures
            r@ == or_panic(
                Action::SetProperty { style: self.write, property: property@, value: value@ },
                "Property is read only"@,
            ),
    {
        Command::or_panic(
            Action::SetProperty {
                style: self.write,
                property: property.to_owned(),
                value: value.to_owned(),
            },
            "Property is read only",
        )
    }
}

/// What the parts of the canvas share.
#[derive(Clone, Copy, PartialEq, Eq, Debug, Structural)]
pub struct Common {
    pub window: NodeId,
    pub document: NodeId,
    /// The canvas element. It is for reading: window handles point to it, and no operation
    /// changes it.
    pub raw: NodeId,
    pub style: Style,
    /// The size that was last reported.
    pub old_size: PhysicalSize,
    /// The size that the canvas has.
    pub current_size: PhysicalSize,
}

impl Common {
    /// The canvas, the document and the two text controls are four different nodes.
    pub open spec fn separate(self, ime_element: ImeElement) -> bool {
        &&& self.raw != ime_element.textarea
        &&& self.raw != ime_element.password
        &&& ime_element.textarea != ime_element.password
        &&& self.document != self.raw
        &&& self.document != ime_element.textarea
        &&& self.document != ime_element.password
    }

    /// A listener on the canvas element.
    pub fn add_event(&self, event_name: &'static str) -> (r: EventListenerHandle)
        ensures
            r == (EventListenerHandle { target: self.raw, event: event_name }),
    {
        EventListenerHandle { target: self.raw, event: event_name }
    }

    pub fn raw(&self) -> (r: NodeId)
        ensures
            r == self.raw,
    {
        self.raw
    }
}

} // verus!
