//! Which answer belongs to which listener.

use vstd::prelude::*;

use crate::canvas::Canvas;
use crate::clipboard::WebClipboardAction;
use crate::listener::EventListenerHandle;
use crate::text::same_text;

verus! {

/// How the canvas answers the events of a listener.
#[derive(Clone, Copy, PartialEq, Eq, Debug, Structural)]
pub enum Answer {
    /// By [`Canvas::handle_touch_start`].
    TouchStart,
    /// The canvas got the focus, which is reported as it is.
    Focus,
    /// By [`Canvas::handle_blur`].
    Blur,
    /// By [`Canvas::handle_keyboard_event`], as a key that is released.
    KeyRelease,
    /// By [`Canvas::handle_keyboard_event`], as a key that is pressed.
    KeyPress,
    /// By [`Canvas::handle_mouse_wheel`].
    Wheel,
    /// By [`Canvas::handle_context_menu`].
    ContextMenu,
    /// By [`Canvas::handle_clipboard`] with the action, and [`Canvas::finish_clipboard`].
    Clipboard(WebClipboardAction),
    /// By [`Canvas::handle_ime_focus`].
    ImeFocus,
    /// By [`Canvas::handle_ime_blur`].
    ImeBlur,
    /// By [`Canvas::handle_composition_start`].
    CompositionStart,
    /// By [`Canvas::handle_composition_update`].
    CompositionUpdate,
    /// By [`Canvas::handle_composition_end`].
    CompositionEnd,
    /// By [`Canvas::handle_before_input`].
    BeforeInput,
    /// By [`Canvas::handle_text_input`].
    TextInput,
}

/// The answer to an event on the canvas element.
pub open spec fn canvas_answer(event: Seq<char>) -> Option<Answer> {
    if event == "touchstart"@ {
        Some(Answer::TouchStart)
    } else if event == "focus"@ {
        Some(Answer::Focus)
    } else if event == "blur"@ {
        Some(Answer::Blur)
    } else if event == "keyup"@ {
        Some(Answer::KeyRelease)
    } else if event == "keydown"@ {
        Some(Answer::KeyPress)
    } else if event == "wheel"@ {
        Some(Answer::Wheel)
    } else if event == "contextmenu"@ {
        Some(Answer::ContextMenu)
    } else {
        None
    }
}

/// The answer to an event on the document.
pub open spec fn document_answer(event: Seq<char>) -> Option<Answer> {
    if event == "copy"@ {
        Some(Answer::Clipboard(WebClipboardAction::Copy))
    } else if event == "cut"@ {
        Some(Answer::Clipboard(WebClipboardAction::Cut))
    } else if event == "paste"@ {
        Some(Answer::Clipboard(WebClipboardAction::Paste))
    } else {
        None
    }
}

/// The answer to an event on a text control.
pub open spec fn control_answer(event: Seq<char>) -> Option<Answer> {
    if event == "keyup"@ {
        Some(Answer::KeyRelease)
    } else if event == "keydown"@ {
        Some(Answer::KeyPress)
    } else if event == "focus"@ {
        Some(Answer::ImeFocus)
    } else if event == "blur"@ {
        Some(Answer::ImeBlur)
    } else if event == "compositionstart"@ {
        Some(Answer::CompositionStart)
    } else if event == "compositionupdate"@ {
        Some(Answer::CompositionUpdate)
    } else if event == "compositionend"@ {
        Some(Answer::CompositionEnd)
    } else if event == "beforeinput"@ {
        Some(Answer::BeforeInput)
    } else if event == "input"@ {
        Some(Answer::TextInput)
    } else {
        None
    }
}

/// The answer to the events of a listener; none where the canvas does not listen to such events.
pub open spec fn answer(canvas: Canvas, listener: EventListenerHandle) -> Option<Answer> {
    if listener.target == canvas.common.raw {
        canvas_answer(listener.event@)
    } else if listener.target == canvas.common.document {
        document_answer(listener.event@)
    } else if canvas.ime_element.owns(listener.target) {
        control_answer(listener.event@)
    } else {
        None
    }
}

fn answer_on_canvas(event: &str) -> (r: Option<Answer>)
    ensures
        r == canvas_answer(event@),
{
    if same_text(event, "touchstart") {
        Some(Answer::TouchStart)
    } else if same_text(event, "focus") {
        Some(Answer::Focus)
    } else if same_text(event, "blur") {
        Some(Answer::Blur)
    } else if same_text(event, "keyup") {
        Some(Answer::KeyRelease)
    } else if same_text(event, "keydown") {
        Some(Answer::KeyPress)
    } else if same_text(event, "wheel") {
        Some(Answer::Wheel)
    } else if same_text(event, "contextmenu") {
        Some(Answer::ContextMenu)
    } else {
        None
    }
}

fn answer_on_document(event: &str) -> (r: Option<Answer>)
    ensures
        r == document_answer(event@),
{
    if same_text(event, "copy") {
        Some(Answer::Clipboard(WebClipboardAction::Copy))
    } else if same_text(event, "cut") {
        Some(Answer::Clipboard(WebClipboardAction::Cut))
    } else if same_text(event, "paste") {
        Some(Answer::Clipboard(WebClipboardAction::Paste))
    } else {
        None
    }
}

fn answer_on_control(event: &str) -> (r: Option<Answer>)
    ensures
        r == control_answer(event@),
{
    if same_text(event, "keyup") {
        Some(Answer::KeyRelease)
    } else if same_text(event, "keydown") {
        Some(Answer::KeyPress)
    } else if same_text(event, "focus") {
        Some(Answer::ImeFocus)
    } else if same_text(event, "blur") {
        Some(Answer::ImeBlur)
    } else if same_text(event, "compositionstart") {
        Some(Answer::CompositionStart)
    } else if same_text(event, "compositionupdate") {
        Some(Answer::CompositionUpdate)
    } else if same_text(event, "compositionend") {
        Some(Answer::CompositionEnd)
    } else if same_text(event, "beforeinput") {
        Some(Answer::BeforeInput)
    } else if same_text(event, "input") {
        Some(Answer::TextInput)
    } else {
        None
    }
}

impl Canvas {
    /// How the events of a listener are answered.
    pub fn answer_to(&self, listener: EventListenerHandle) -> (r: Option<Answer>)
        ensures
            r == answer(*self, listener),
    {
        if listener.target == self.raw() {
            answer_on_canvas(listener.event)
        } else if listener.target == self.document() {
            answer_on_document(listener.event)
        } else if self.ime_element.contains_target(listener.target) {
            answer_on_control(listener.event)
        } else {
            None
        }
    }
}

} // verus!
