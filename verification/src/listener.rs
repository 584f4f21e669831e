//! Registrations with the page. Whoever holds the page listens for as long as the registration
//! is kept.

use vstd::prelude::*;

use crate::ime::ImeElement;
use crate::types::NodeId;

verus! {

/// A listener for one kind of event on one target.
#[derive(Clone, Copy, PartialEq, Eq, Debug)]
pub struct EventListenerHandle {
    pub target: NodeId,
    pub event: &'static str,
}

/// A listener for the result of a media query.
#[derive(Clone, Copy, PartialEq, Eq, Debug)]
pub struct MediaQueryListHandle {
    pub query: &'static str,
}

/// An observer of the size and scale of an element.
#[derive(Clone, Copy, PartialEq, Eq, Debug, Structural)]
pub struct ResizeScaleHandle {
    pub target: NodeId,
}

/// An observer of whether an element is in view.
#[derive(Clone, Copy, PartialEq, Eq, Debug, Structural)]
pub struct IntersectionObserverHandle {
    pub target: NodeId,
}

/// Which pointer events are listened to.
#[derive(Clone, Copy, PartialEq, Eq, Debug, Structural)]
pub struct PointerHandler {
    pub on_cursor_leave: bool,
    pub on_cursor_enter: bool,
    pub on_cursor_move: bool,
    pub on_pointer_press: bool,
    pub on_pointer_release: bool,
    pub on_touch_cancel: bool,
}

impl PointerHandler {
    /// No pointer event is listened to.
    pub open spec fn none() -> Self {
        PointerHandler {
            on_cursor_leave: false,
            on_cursor_enter: false,
            on_cursor_move: false,
            on_pointer_press: false,
            on_pointer_release: false,
            on_touch_cancel: false,
        }
    }

    pub fn new() -> (r: Self)
        ensures
            r == PointerHandler::none(),
    {
        PointerHandler {
            on_cursor_leave: false,
            on_cursor_enter: false,
            on_cursor_move: false,
            on_pointer_press: false,
            on_pointer_release: false,
            on_touch_cancel: false,
        }
    }

    pub fn remove_listeners(&mut self)
        ensures
            *final(self) == PointerHandler::none(),
    {
        *self = PointerHandler::new();
    }
}

/// The listener that a place holds, if any.
pub open spec fn single(place: Option<EventListenerHandle>) -> Seq<EventListenerHandle> {
    match place {
        Some(listener) => seq![listener],
        None => seq![],
    }
}

/// The listeners for one kind of event on both text controls.
pub open spec fn both(ime_element: ImeElement, event: &'static str) -> Seq<EventListenerHandle> {
    seq![
        EventListenerHandle { target: ime_element.textarea, event },
        EventListenerHandle { target: ime_element.password, event },
    ]
}

} // verus!
