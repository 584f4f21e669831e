//! What the canvas listens to, and what it makes of each event.

use smol_str::SmolStr;
use vstd::prelude::*;
use vstd::utf8::encode_utf8;

use crate::canvas::Canvas;
use crate::clipboard::{ClipboardResponse, WebClipboardAction, WebClipboardEvent};
use crate::command::{attempt, listing, Action, Command};
use crate::defaults::{withheld, BrowserDefault, BrowserDefaults};
use crate::ime::{found, ControlState, Controls, ImeElement};
use crate::input::{
    direction_of, reports, text_of, BeforeInput, Ime, ImeReport, InputEvent, WebSelectionDirection,
    WebTextInputEvent,
};
use crate::keyboard::{
    clipboard_shortcut, is_clipboard_shortcut, KeyReport, KeyResponse, KeyboardEvent,
};
use crate::listener::{
    both, single, EventListenerHandle, IntersectionObserverHandle, MediaQueryListHandle,
    PointerHandler, ResizeScaleHandle,
};
use crate::text::same_text;
use crate::types::{NodeId, ReadError};

verus! {

/// What the handling of pointer events goes by.
#[derive(Clone, Copy, PartialEq, Eq, Debug, Structural)]
pub struct PointerContext {
    /// The canvas element.
    pub target: NodeId,
    pub prevent_default: bool,
    pub browser_defaults: BrowserDefaults,
    pub ime_allowed: bool,
    pub ime_element: ImeElement,
}

/// The answer to a turn of the wheel: the device, the distance `D` and the modifiers `M`, where
/// there is a distance.
#[derive(PartialEq, Eq, Debug)]
pub struct WheelResponse<D, M> {
    pub prevent_default: bool,
    pub report: Option<(i32, D, M)>,
}

/// The answer to a request for a context menu at a position `P` with modifiers `M`.
#[derive(PartialEq, Eq, Debug)]
pub struct ContextMenuResponse<P, M> {
    pub prevent_default: bool,
    pub position: P,
    pub modifiers: M,
}

/// What is given up when the canvas stops listening.
#[derive(PartialEq, Eq, Debug)]
pub struct Removal {
    pub listeners: Vec<EventListenerHandle>,
    pub dark_mode: Option<MediaQueryListHandle>,
    pub resize_scale: Option<ResizeScaleHandle>,
    pub intersect: Option<IntersectionObserverHandle>,
    pub commands: Vec<Command<String>>,
}

/// What an event that takes the focus from a text control reports, where the focus goes to
/// `related`. Between the text controls nothing is reported, and the window keeps the focus where
/// the canvas gets it.
pub open spec fn ime_blur_reports(canvas: Canvas, related: Option<NodeId>) -> Seq<
    ImeReport<Seq<char>>,
> {
    if related matches Some(node) && canvas.ime_element.owns(node) {
        seq![]
    } else if related == Some(canvas.common.raw) {
        seq![ImeReport::Ime(Ime::Disabled)]
    } else {
        seq![ImeReport::Ime(Ime::Disabled), ImeReport::Focus(false)]
    }
}

/// What an event that gives a text control the focus reports.
pub open spec fn ime_focus_reports() -> Seq<ImeReport<Seq<char>>> {
    seq![ImeReport::Focus(true), ImeReport::Ime(Ime::Enabled)]
}

/// The canvas loses the focus to something that is not part of the window.
pub open spec fn blur_reported(canvas: Canvas, related: Option<NodeId>) -> bool {
    !(related matches Some(node) && canvas.ime_element.owns(node))
}

/// The browser is kept from handling the key. It keeps what belongs to a composition and the
/// chords of the clipboard.
pub open spec fn key_withheld(canvas: Canvas, event: KeyboardEvent) -> bool {
    &&& withheld(canvas.prevent_default, canvas.browser_defaults, BrowserDefault::Keyboard)
    &&& !event.is_composing
    &&& !clipboard_shortcut(event)
}

/// What is reported of text input into the active control, where `before` was announced. What the
/// event leaves open is taken from the announcement.
pub open spec fn text_input_report(
    control: ControlState,
    before: BeforeInput,
    event: InputEvent,
) -> WebTextInputEvent {
    let selection_start = found(control.selection_start).unwrap_or(0);
    WebTextInputEvent {
        value: control.value,
        selection_start,
        selection_end: found(control.selection_end).unwrap_or(selection_start),
        selection_direction: direction_of(text_of(found(control.selection_direction))),
        input_type: if event.input_type@.len() == 0 {
            before.input_type
        } else {
            event.input_type
        },
        data: if event.data is Some {
            event.data
        } else {
            before.data
        },
        is_composing: event.is_composing,
        before_input_cancelable: before.cancelable,
    }
}

/// What is reported of the text of a composition: the cursor stands at its end, counted in bytes
/// of UTF-8.
pub open spec fn is_preedit(event: Ime<String>, data: Option<String>) -> bool {
    &&& event matches Ime::Preedit(text, cursor)
    &&& text@ == text_of(data).unwrap_or(Seq::empty())
    &&& cursor matches Some((start, end))
    &&& start == end
    &&& end as nat == encode_utf8(text@).len()
}

/// The event concerns the window: its target is the canvas or one of the text controls.
pub open spec fn concerns(canvas: Canvas, target: Option<NodeId>) -> bool {
    target matches Some(node) && (node == canvas.common.raw || canvas.ime_element.owns(node))
}

/// The text of the clipboard that a request carries. Only a paste carries one.
pub open spec fn clipboard_text(
    action: WebClipboardAction,
    data: Option<Result<String, ReadError>>,
) -> Option<String> {
    if action == WebClipboardAction::Paste {
        match data {
            Some(Ok(text)) => Some(text),
            _ => None,
        }
    } else {
        None
    }
}

/// The request that an event of the clipboard on `target` stands for, where the read of the text
/// on the clipboard came to `data`; none where the event does not concern the window.
pub open spec fn clipboard_request(
    canvas: Canvas,
    action: WebClipboardAction,
    target: Option<NodeId>,
    data: Option<Result<String, ReadError>>,
) -> Option<WebClipboardEvent> {
    if concerns(canvas, target) {
        Some(WebClipboardEvent { action, text: clipboard_text(action, data), response: None })
    } else {
        None
    }
}

/// The text on the clipboard is read for an event on `target`: for a paste that concerns the
/// window, and for nothing else.
pub open spec fn clipboard_read(
    canvas: Canvas,
    action: WebClipboardAction,
    target: Option<NodeId>,
) -> bool {
    concerns(canvas, target) && action == WebClipboardAction::Paste
}

fn push_single(list: &mut Vec<EventListenerHandle>, place: Option<EventListenerHandle>)
    ensures
        final(list)@ == old(list)@ + single(place),
{
    match place {
        Some(listener) => {
            list.push(listener);
        },
        None => {},
    }
    assert(list@ =~= old(list)@ + single(place));
}

fn push_both(list: &mut Vec<EventListenerHandle>, place: &mut Vec<EventListenerHandle>)
    ensures
        final(list)@ == old(list)@ + old(place)@,
        final(place)@.len() == 0,
{
    list.append(place);
    assert(list@ =~= old(list)@ + old(place)@);
}

impl Canvas {
    /// Listens for the event on both text controls.
    pub fn add_ime_events(&self, event_name: &'static str) -> (r: Vec<EventListenerHandle>)
        ensures
            r@ == both(self.ime_element, event_name),
    {
        let targets = self.ime_element.event_targets();
        let mut list: Vec<EventListenerHandle> = Vec::new();
        list.push(EventListenerHandle { target: targets[0], event: event_name });
        list.push(EventListenerHandle { target: targets[1], event: event_name });
        assert(list@ =~= both(self.ime_element, event_name));
        list
    }

    pub fn on_touch_start(&mut self)
        ensures
            *final(self) == (Canvas {
                on_touch_start: Some(
                    EventListenerHandle { target: old(self).common.raw, event: "touchstart" },
                ),
                ..*old(self)
            }),
            old(self).wf() ==> final(self).wf(),
    {
        self.on_touch_start = Some(self.common.add_event("touchstart"));
    }

    /// Whether the browser is kept from handling a touch.
    pub fn handle_touch_start(&self) -> (prevent_default: bool)
        ensures
            prevent_default == withheld(
                self.prevent_default,
                self.browser_defaults,
                BrowserDefault::Touch,
            ),
    {
        self.prevent_default && !self.browser_defaults.contains(BrowserDefault::Touch)
    }

    pub fn on_blur(&mut self)
        ensures
            *final(self) == (Canvas {
                on_blur: Some(
                    EventListenerHandle { target: old(self).common.raw, event: "blur" },
                ),
                ..*old(self)
            }),
            old(self).wf() ==> final(self).wf(),
    {
        self.on_blur = Some(self.common.add_event("blur"));
    }

    /// Whether it is reported that the canvas lost the focus to `related`.
    pub fn handle_blur(&self, related: Option<NodeId>) -> (report: bool)
        ensures
            report == blur_reported(*self, related),
    {
        match related {
            Some(target) => !self.ime_element.contains_target(target),
            None => true,
        }
    }

    pub fn on_ime(&mut self)
        ensures
            *final(self) == (Canvas {
                on_ime_focus: final(self).on_ime_focus,
                on_ime_blur: final(self).on_ime_blur,
                on_composition_start: final(self).on_composition_start,
                on_composition_update: final(self).on_composition_update,
                on_composition_end: final(self).on_composition_end,
                ..*old(self)
            }),
            final(self).on_ime_focus@ == both(old(self).ime_element, "focus"),
            final(self).on_ime_blur@ == both(old(self).ime_element, "blur"),
            final(self).on_composition_start@ == both(old(self).ime_element, "compositionstart"),
            final(self).on_composition_update@ == both(old(self).ime_element, "compositionupdate"),
            final(self).on_composition_end@ == both(old(self).ime_element, "compositionend"),
            old(self).wf() ==> final(self).wf(),
    {
        self.on_ime_focus = self.add_ime_events("focus");
        self.on_ime_blur = self.add_ime_events("blur");
        self.on_composition_start = self.add_ime_events("compositionstart");
        self.on_composition_update = self.add_ime_events("compositionupdate");
        self.on_composition_end = self.add_ime_events("compositionend");
    }

    /// What is reported when a text control gets the focus.
    pub fn handle_ime_focus(&self) -> (r: Vec<ImeReport<String>>)
        ensures
            reports(r@) == ime_focus_reports(),
    {
        let mut list: Vec<ImeReport<String>> = Vec::new();
        list.push(ImeReport::Focus(true));
        list.push(ImeReport::Ime(Ime::Enabled));
        assert(reports(list@) =~= ime_focus_reports());
        list
    }

    /// What is reported when a text control loses the focus to `related`.
    pub fn handle_ime_blur(&self, related: Option<NodeId>) -> (r: Vec<ImeReport<String>>)
        ensures
            reports(r@) == ime_blur_reports(*self, related),
    {
        let mut list: Vec<ImeReport<String>> = Vec::new();
        let inside = match related {
            Some(target) => self.ime_element.contains_target(target),
            None => false,
        };
        if !inside {
            list.push(ImeReport::Ime(Ime::Disabled));
            let to_canvas = match related {
                Some(target) => target == self.raw(),
                None => false,
            };
            if !to_canvas {
                list.push(ImeReport::Focus(false));
            }
        }
        assert(reports(list@) =~= ime_blur_reports(*self, related));
        list
    }

    /// What is reported when a composition starts: its text, with the cursor at the end.
    pub fn handle_composition_start(&self, data: Option<String>) -> (r: Ime<String>)
        ensures
            is_preedit(r, data),
    {
        let text = match data {
            Some(text) => text,
            None => String::new(),
        };
        let end: usize = text.as_str().as_bytes().len();
        Ime::Preedit(text, Some((end, end)))
    }

    /// What is reported when the text of a composition changes: the text, with the cursor at the
    /// end.
    pub fn handle_composition_update(&self, data: Option<String>) -> (r: Ime<String>)
        ensures
            is_preedit(r, data),
    {
        self.handle_composition_start(data)
    }

    /// What is reported when a composition ends: an empty text without a cursor.
    pub fn handle_composition_end(&self) -> (r: Ime<String>)
        ensures
            r@ == Ime::Preedit(Seq::<char>::empty(), None::<(usize, usize)>),
    {
        Ime::Preedit(String::new(), None)
    }

    /// Listens for text input. What was announced before is forgotten.
    pub fn on_text_input(&mut self)
        ensures
            *final(self) == (Canvas {
                on_before_input: final(self).on_before_input,
                on_text_input: final(self).on_text_input,
                pending_input: final(self).pending_input,
                ..*old(self)
            }),
            final(self).on_before_input@ == both(old(self).ime_element, "beforeinput"),
            final(self).on_text_input@ == both(old(self).ime_element, "input"),
            final(self).pending_input.is_blank(),
            old(self).wf() ==> final(self).wf(),
    {
        self.pending_input = BeforeInput::blank();
        self.on_before_input = self.add_ime_events("beforeinput");
        self.on_text_input = self.add_ime_events("input");
    }

    /// Takes note of an announcement of text input; an earlier one is forgotten.
    pub fn handle_before_input(
        &mut self,
        input_type: String,
        data: Option<String>,
        cancelable: bool,
    )
        ensures
            *final(self) == (Canvas {
                pending_input: BeforeInput { input_type, data, cancelable },
                ..*old(self)
            }),
            old(self).wf() ==> final(self).wf(),
    {
        self.pending_input = BeforeInput { input_type, data, cancelable };
    }

    /// What is reported of text input. `controls` is what the text controls hold. What the event
    /// leaves open is taken from the announcement, which is then used up.
    pub fn handle_text_input(&mut self, controls: &Controls, event: InputEvent) -> (r:
        WebTextInputEvent)
        ensures
            *final(self) == (Canvas {
                pending_input: final(self).pending_input,
                ..*old(self)
            }),
            final(self).pending_input.is_blank(),
            old(self).wf() ==> final(self).wf(),
            r == text_input_report(
                old(self).ime_element.active_state(*controls),
                old(self).pending_input,
                event,
            ),
    {
        let selection_start: u32 = self.ime_element.selection_start(controls).unwrap_or(0);
        let selection_end: u32 = self.ime_element.selection_end(controls).unwrap_or(
            selection_start,
        );
        let selection_direction = match self.ime_element.selection_direction(controls) {
            Some(name) => if same_text(name.as_str(), "backward") {
                WebSelectionDirection::Backward
            } else if same_text(name.as_str(), "forward") {
                WebSelectionDirection::Forward
            } else {
                WebSelectionDirection::Undirected
            },
            None => WebSelectionDirection::Undirected,
        };
        let mut before = BeforeInput::blank();
        core::mem::swap(&mut before, &mut self.pending_input);
        WebTextInputEvent {
            value: self.ime_element.value(controls),
            selection_start,
            selection_end,
            selection_direction,
            input_type: if event.input_type.as_str().is_empty() {
                before.input_type
            } else {
                event.input_type
            },
            data: match event.data {
                Some(data) => Some(data),
                None => before.data,
            },
            is_composing: event.is_composing,
            before_input_cancelable: before.cancelable,
        }
    }

    pub fn on_focus(&mut self)
        ensures
            *final(self) == (Canvas {
                on_focus: Some(
                    EventListenerHandle { target: old(self).common.raw, event: "focus" },
                ),
                ..*old(self)
            }),
            old(self).wf() ==> final(self).wf(),
    {
        self.on_focus = Some(self.common.add_event("focus"));
    }

    pub fn on_keyboard_release(&mut self)
        ensures
            *final(self) == (Canvas {
                on_keyboard_release: Some(
                    EventListenerHandle { target: old(self).common.raw, event: "keyup" },
                ),
                on_ime_keyboard_release: final(self).on_ime_keyboard_release,
                ..*old(self)
            }),
            final(self).on_ime_keyboard_release@ == both(old(self).ime_element, "keyup"),
            old(self).wf() ==> final(self).wf(),
    {
        self.on_keyboard_release = Some(self.common.add_event("keyup"));
        self.on_ime_keyboard_release = self.add_ime_events("keyup");
    }

    pub fn on_keyboard_press(&mut self)
        ensures
            *final(self) == (Canvas {
                on_keyboard_press: Some(
                    EventListenerHandle { target: old(self).common.raw, event: "keydown" },
                ),
                on_ime_keyboard_press: final(self).on_ime_keyboard_press,
                ..*old(self)
            }),
            final(self).on_ime_keyboard_press@ == both(old(self).ime_element, "keydown"),
            old(self).wf() ==> final(self).wf(),
    {
        self.on_keyboard_press = Some(self.common.add_event("keydown"));
        self.on_ime_keyboard_press = self.add_ime_events("keydown");
    }

    /// Answers a key that is pressed or released, on the canvas or on a text control. The browser
    /// keeps what belongs to a composition and the chords of the clipboard. The physical key, the
    /// logical key, its text, its location and the modifiers are those of the event.
    pub fn handle_keyboard_event<P, K, L, M>(
        &self,
        event: &KeyboardEvent,
        physical_key: P,
        key: K,
        text: Option<SmolStr>,
        location: L,
        modifiers: M,
    ) -> (r: KeyResponse<P, K, L, M>)
        ensures
            r.prevent_default == key_withheld(*self, *event),
            r.report == (KeyReport {
                physical_key,
                key,
                text,
                location,
                repeat: event.repeat,
                modifiers,
            }),
    {
        let prevent_default = self.prevent_default && !self.browser_defaults.contains(
            BrowserDefault::Keyboard,
        ) && !event.is_composing && !is_clipboard_shortcut(event);
        KeyResponse {
            prevent_default,
            report: KeyReport {
                physical_key,
                key,
                text,
                location,
                repeat: event.repeat,
                modifiers,
            },
        }
    }

    pub fn on_cursor_leave(&mut self)
        ensures
            *final(self) == (Canvas {
                pointer_handler: PointerHandler {
                    on_cursor_leave: true,
                    ..old(self).pointer_handler
                },
                ..*old(self)
            }),
            old(self).wf() ==> final(self).wf(),
    {
        self.pointer_handler.on_cursor_leave = true;
    }

    pub fn on_cursor_enter(&mut self)
        ensures
            *final(self) == (Canvas {
                pointer_handler: PointerHandler {
                    on_cursor_enter: true,
                    ..old(self).pointer_handler
                },
                ..*old(self)
            }),
            old(self).wf() ==> final(self).wf(),
    {
        self.pointer_handler.on_cursor_enter = true;
    }

    pub fn on_mouse_release(&mut self)
        ensures
            *final(self) == (Canvas {
                pointer_handler: PointerHandler {
                    on_pointer_release: true,
                    ..old(self).pointer_handler
                },
                ..*old(self)
            }),
            old(self).wf() ==> final(self).wf(),
    {
        self.pointer_handler.on_pointer_release = true;
    }

    pub fn on_mouse_press(&mut self)
        ensures
            *final(self) == (Canvas {
                pointer_handler: PointerHandler {
                    on_pointer_press: true,
                    ..old(self).pointer_handler
                },
                ..*old(self)
            }),
            old(self).wf() ==> final(self).wf(),
    {
        self.pointer_handler.on_pointer_press = true;
    }

    pub fn on_cursor_move(&mut self)
        ensures
            *final(self) == (Canvas {
                pointer_handler: PointerHandler {
                    on_cursor_move: true,
                    ..old(self).pointer_handler
                },
                ..*old(self)
            }),
            old(self).wf() ==> final(self).wf(),
    {
        self.pointer_handler.on_cursor_move = true;
    }

    pub fn on_touch_cancel(&mut self)
        ensures
            *final(self) == (Canvas {
                pointer_handler: PointerHandler {
                    on_touch_cancel: true,
                    ..old(self).pointer_handler
                },
                ..*old(self)
            }),
            old(self).wf() ==> final(self).wf(),
    {
        self.pointer_handler.on_touch_cancel = true;
    }

    /// What a press or a move of a pointer is handled by at this moment.
    pub fn pointer_context(&self) -> (r: PointerContext)
        ensures
            r == (PointerContext {
                target: self.common.raw,
                prevent_default: self.prevent_default,
                browser_defaults: self.browser_defaults,
                ime_allowed: self.ime_allowed,
                ime_element: self.ime_element,
            }),
    {
        PointerContext {
            target: self.common.raw,
            prevent_default: self.prevent_default,
            browser_defaults: self.browser_defaults,
            ime_allowed: self.ime_allowed,
            ime_element: self.ime_element,
        }
    }

    pub fn on_mouse_wheel(&mut self)
        ensures
            *final(self) == (Canvas {
                on_mouse_wheel: Some(
                    EventListenerHandle { target: old(self).common.raw, event: "wheel" },
                ),
                ..*old(self)
            }),
            old(self).wf() ==> final(self).wf(),
    {
        self.on_mouse_wheel = Some(self.common.add_event("wheel"));
    }

    /// Answers a turn of the wheel by a distance, if the browser gives one. All wheels are one
    /// device.
    pub fn handle_mouse_wheel<D, M>(&self, delta: Option<D>, modifiers: M) -> (r: WheelResponse<
        D,
        M,
    >)
        ensures
            r.prevent_default == withheld(
                self.prevent_default,
                self.browser_defaults,
                BrowserDefault::Wheel,
            ),
            r.report == match delta {
                Some(delta) => Some((0i32, delta, modifiers)),
                None => None,
            },
    {
        let prevent_default = self.prevent_default && !self.browser_defaults.contains(
            BrowserDefault::Wheel,
        );
        let report = match delta {
            Some(delta) => Some((0i32, delta, modifiers)),
            None => None,
        };
        WheelResponse { prevent_default, report }
    }

    pub fn on_dark_mode(&mut self)
        ensures
            *final(self) == (Canvas {
                on_dark_mode: Some(
                    MediaQueryListHandle { query: "(prefers-color-scheme: dark)" },
                ),
                ..*old(self)
            }),
            old(self).wf() ==> final(self).wf(),
    {
        self.on_dark_mode = Some(MediaQueryListHandle { query: "(prefers-color-scheme: dark)" });
    }

    pub fn on_resize_scale(&mut self)
        ensures
            *final(self) == (Canvas {
                on_resize_scale: Some(ResizeScaleHandle { target: old(self).common.raw }),
                ..*old(self)
            }),
            old(self).wf() ==> final(self).wf(),
    {
        self.on_resize_scale = Some(ResizeScaleHandle { target: self.raw() });
    }

    pub fn on_intersection(&mut self)
        ensures
            *final(self) == (Canvas {
                on_intersect: Some(IntersectionObserverHandle { target: old(self).common.raw }),
                ..*old(self)
            }),
            old(self).wf() ==> final(self).wf(),
    {
        self.on_intersect = Some(IntersectionObserverHandle { target: self.raw() });
    }

    pub fn on_context_menu(&mut self)
        ensures
            *final(self) == (Canvas {
                on_context_menu: Some(
                    EventListenerHandle { target: old(self).common.raw, event: "contextmenu" },
                ),
                ..*old(self)
            }),
            old(self).wf() ==> final(self).wf(),
    {
        self.on_context_menu = Some(self.common.add_event("contextmenu"));
    }

    /// Answers a request for a context menu.
    pub fn handle_context_menu<P, M>(&self, position: P, modifiers: M) -> (r: ContextMenuResponse<
        P,
        M,
    >)
        ensures
            r.prevent_default == withheld(
                self.prevent_default,
                self.browser_defaults,
                BrowserDefault::ContextMenu,
            ),
            r.position == position,
            r.modifiers == modifiers,
    {
        let prevent_default = self.prevent_default && !self.browser_defaults.contains(
            BrowserDefault::ContextMenu,
        );
        ContextMenuResponse { prevent_default, position, modifiers }
    }

    /// Listens for copying, cutting and pasting anywhere in the document. Each listener comes with
    /// what the user does.
    pub fn on_clipboard(&mut self) -> (r: Vec<(EventListenerHandle, WebClipboardAction)>)
        ensures
            *final(self) == ({
                let target = old(self).common.document;
                Canvas {
                    on_copy: Some(EventListenerHandle { target, event: "copy" }),
                    on_cut: Some(EventListenerHandle { target, event: "cut" }),
                    on_paste: Some(EventListenerHandle { target, event: "paste" }),
                    ..*old(self)
                }
            }),
            r@ == ({
                let target = old(self).common.document;
                seq![
                    (EventListenerHandle { target, event: "copy" }, WebClipboardAction::Copy),
                    (EventListenerHandle { target, event: "cut" }, WebClipboardAction::Cut),
                    (EventListenerHandle { target, event: "paste" }, WebClipboardAction::Paste),
                ]
            }),
            old(self).wf() ==> final(self).wf(),
    {
        let copy = self.add_clipboard_listener("copy");
        let cut = self.add_clipboard_listener("cut");
        let paste = self.add_clipboard_listener("paste");
        self.on_copy = Some(copy);
        self.on_cut = Some(cut);
        self.on_paste = Some(paste);
        vec![
            (copy, WebClipboardAction::Copy),
            (cut, WebClipboardAction::Cut),
            (paste, WebClipboardAction::Paste),
        ]
    }

    /// A listener on the document for an event of the clipboard.
    pub fn add_clipboard_listener(&self, event_name: &'static str) -> (r: EventListenerHandle)
        ensures
            r == (EventListenerHandle { target: self.common.document, event: event_name }),
    {
        EventListenerHandle { target: self.document(), event: event_name }
    }

    /// Whether an event of the clipboard on `target` takes a read of the text on the clipboard.
    pub fn reads_clipboard(&self, action: WebClipboardAction, target: Option<NodeId>) -> (r: bool)
        ensures
            r == clipboard_read(*self, action, target),
    {
        let concerned = match target {
            Some(target) => target == self.raw() || self.ime_element.contains_target(target),
            None => false,
        };
        concerned && action == WebClipboardAction::Paste
    }

    /// The request that an event of the clipboard on `target` stands for; none where the event
    /// does not concern the window. `data` is the read of the text on the clipboard, where it
    /// takes one and the event comes with a clipboard.
    pub fn handle_clipboard(
        &self,
        action: WebClipboardAction,
        target: Option<NodeId>,
        data: Option<Result<String, ReadError>>,
    ) -> (r: Option<WebClipboardEvent>)
        ensures
            r == clipboard_request(*self, action, target, data),
    {
        let target = match target {
            Some(target) => target,
            None => return None,
        };
        if target != self.raw() && !self.ime_element.contains_target(target) {
            return None;
        }
        let text = if action == WebClipboardAction::Paste {
            match data {
                Some(Ok(text)) => Some(text),
                _ => None,
            }
        } else {
            None
        };
        Some(WebClipboardEvent::new(action, text))
    }

    /// What follows once a request was handed out. An answer is put on the clipboard, if the
    /// event comes with one, and takes the place of what the browser would do.
    pub fn finish_clipboard(&self, request: &mut WebClipboardEvent, has_clipboard: bool) -> (r:
        ClipboardResponse)
        ensures
            *final(request) == (WebClipboardEvent { response: None, ..*old(request) }),
            r.set_data == if has_clipboard {
                old(request).response
            } else {
                None
            },
            r.prevent_default == (old(request).response is Some || withheld(
                self.prevent_default,
                self.browser_defaults,
                BrowserDefault::Clipboard,
            )),
    {
        let response = request.take_response();
        let prevent_default = response.is_some() || (self.prevent_default
            && !self.browser_defaults.contains(BrowserDefault::Clipboard));
        let set_data = if has_clipboard {
            response
        } else {
            None
        };
        ClipboardResponse { set_data, prevent_default }
    }

    /// Stops listening to anything and takes the text controls out of the page.
    pub fn remove_listeners(&mut self) -> (r: Removal)
        ensures
            r.listeners@ == old(self).listeners(),
            r.dark_mode == old(self).on_dark_mode,
            r.resize_scale == old(self).on_resize_scale,
            r.intersect == old(self).on_intersect,
            listing(r.commands@) == seq![
                attempt(Action::RemovePointerListeners),
                attempt(Action::CancelAnimationFrame),
            ] + old(self).ime_element.remove_commands(),
            final(self).listeners().len() == 0,
            *final(self) == (Canvas {
                on_touch_start: None,
                on_focus: None,
                on_blur: None,
                on_keyboard_release: None,
                on_keyboard_press: None,
                on_ime_keyboard_release: final(self).on_ime_keyboard_release,
                on_ime_keyboard_press: final(self).on_ime_keyboard_press,
                on_mouse_wheel: None,
                on_dark_mode: None,
                pointer_handler: PointerHandler::none(),
                on_resize_scale: None,
                on_intersect: None,
                on_touch_end: None,
                on_context_menu: None,
                on_copy: None,
                on_cut: None,
                on_paste: None,
                on_ime_focus: final(self).on_ime_focus,
                on_ime_blur: final(self).on_ime_blur,
                on_composition_start: final(self).on_composition_start,
                on_composition_update: final(self).on_composition_update,
                on_composition_end: final(self).on_composition_end,
                on_before_input: final(self).on_before_input,
                on_text_input: final(self).on_text_input,
                ..*old(self)
            }),
            old(self).wf() ==> final(self).wf(),
    {
        let mut listeners: Vec<EventListenerHandle> = Vec::new();
        push_single(&mut listeners, self.on_touch_start.take());
        push_single(&mut listeners, self.on_focus.take());
        push_single(&mut listeners, self.on_blur.take());
        push_single(&mut listeners, self.on_keyboard_release.take());
        push_single(&mut listeners, self.on_keyboard_press.take());
        push_both(&mut listeners, &mut self.on_ime_keyboard_release);
        push_both(&mut listeners, &mut self.on_ime_keyboard_press);
        push_single(&mut listeners, self.on_mouse_wheel.take());
        let dark_mode = self.on_dark_mode.take();
        self.pointer_handler.remove_listeners();
        let resize_scale = self.on_resize_scale.take();
        let intersect = self.on_intersect.take();
        push_single(&mut listeners, self.on_touch_end.take());
        push_single(&mut listeners, self.on_context_menu.take());
        push_single(&mut listeners, self.on_copy.take());
        push_single(&mut listeners, self.on_cut.take());
        push_single(&mut listeners, self.on_paste.take());
        push_both(&mut listeners, &mut self.on_ime_focus);
        push_both(&mut listeners, &mut self.on_ime_blur);
        push_both(&mut listeners, &mut self.on_composition_start);
        push_both(&mut listeners, &mut self.on_composition_update);
        push_both(&mut listeners, &mut self.on_composition_end);
        push_both(&mut listeners, &mut self.on_before_input);
        push_both(&mut listeners, &mut self.on_text_input);

        let mut commands: Vec<Command<String>> = Vec::new();
        commands.push(Command::attempt(Action::RemovePointerListeners));
        commands.push(Command::attempt(Action::CancelAnimationFrame));
        let ghost first = listing(commands@);
        let mut removal = self.ime_element.remove();
        let ghost second = listing(removal@);
        commands.append(&mut removal);
        assert(listing(commands@) =~= first + second);
        assert(first =~= seq![
            attempt(Action::RemovePointerListeners),
            attempt(Action::CancelAnimationFrame),
        ]);
        Removal { listeners, dark_mode, resize_scale, intersect, commands }
    }
}

} // verus!
