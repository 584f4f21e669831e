//! The canvas of a window: its element, its text controls and what it listens to.

use vstd::prelude::*;

use crate::command::{
    attempt, listing, or_error, or_panic, Action, Command, Declaration, Failure, Placement,
};
use crate::common::{style_commands, style_of, Common, Style};
use crate::defaults::BrowserDefaults;
use crate::ime::{creation, Controls, ImeElement};
use crate::input::{
    direction_name, Attribute, BeforeInput, ImePurpose, WebImeConfiguration, WebSelectionDirection,
};
use crate::listener::{
    both, single, EventListenerHandle, IntersectionObserverHandle, MediaQueryListHandle,
    PointerHandler, ResizeScaleHandle,
};
use crate::text::{same_text, utf16_len_u32, utf16_units};
use crate::types::{NodeId, PhysicalSize, WindowId};

verus! {

/// The attributes of a window that concern its canvas. Sizes and the position are held by
/// whoever acts; here stands only whether there is one.
#[derive(Clone, Copy, PartialEq, Eq, Debug, Structural)]
pub struct WindowAttributes {
    /// An element of the page to use as the canvas.
    pub canvas: Option<NodeId>,
    /// The canvas is made part of the page where it is not.
    pub append: bool,
    /// The canvas can take the focus.
    pub focusable: bool,
    pub prevent_default: bool,
    pub browser_defaults: BrowserDefaults,
    pub inner_size: bool,
    pub min_inner_size: bool,
    pub max_inner_size: bool,
    pub position: bool,
    pub fullscreen: bool,
    /// The canvas gets the focus.
    pub active: bool,
}

impl WindowAttributes {
    /// The attributes have the size or position.
    pub open spec fn asks(self, what: Placement) -> bool {
        match what {
            Placement::InnerSize => self.inner_size,
            Placement::MinInnerSize => self.min_inner_size,
            Placement::MaxInnerSize => self.max_inner_size,
            Placement::Position => self.position,
        }
    }
}

/// The identities that a new canvas goes by.
#[derive(Clone, Copy, PartialEq, Eq, Debug, Structural)]
pub struct CanvasNodes {
    pub window: NodeId,
    pub document: NodeId,
    /// A canvas element that is made where the attributes name none.
    pub canvas: NodeId,
    pub textarea: NodeId,
    pub password: NodeId,
}

/// The properties by which the content of a canvas is set off from its box. The horizontal
/// position gains the first two, the vertical one the other two.
#[derive(Clone, Copy, PartialEq, Eq, Debug)]
pub struct Insets {
    pub border_left: &'static str,
    pub padding_left: &'static str,
    pub border_top: &'static str,
    pub padding_top: &'static str,
}

/// The canvas of a window.
#[derive(Debug)]
pub struct Canvas {
    pub common: Common,
    pub id: WindowId,
    pub has_focus: bool,
    /// The browser is kept from handling events by itself.
    pub prevent_default: bool,
    /// The kinds of events that are left to the browser all the same.
    pub browser_defaults: BrowserDefaults,
    pub is_intersecting: Option<bool>,
    pub on_touch_start: Option<EventListenerHandle>,
    pub on_focus: Option<EventListenerHandle>,
    pub on_blur: Option<EventListenerHandle>,
    pub on_keyboard_release: Option<EventListenerHandle>,
    pub on_keyboard_press: Option<EventListenerHandle>,
    pub on_ime_keyboard_release: Vec<EventListenerHandle>,
    pub on_ime_keyboard_press: Vec<EventListenerHandle>,
    pub on_mouse_wheel: Option<EventListenerHandle>,
    pub on_dark_mode: Option<MediaQueryListHandle>,
    pub pointer_handler: PointerHandler,
    pub on_resize_scale: Option<ResizeScaleHandle>,
    pub on_intersect: Option<IntersectionObserverHandle>,
    pub on_touch_end: Option<EventListenerHandle>,
    pub on_context_menu: Option<EventListenerHandle>,
    pub on_copy: Option<EventListenerHandle>,
    pub on_cut: Option<EventListenerHandle>,
    pub on_paste: Option<EventListenerHandle>,
    pub ime_element: ImeElement,
    /// The text controls may take the focus.
    pub ime_allowed: bool,
    pub on_ime_focus: Vec<EventListenerHandle>,
    pub on_ime_blur: Vec<EventListenerHandle>,
    pub on_composition_start: Vec<EventListenerHandle>,
    pub on_composition_update: Vec<EventListenerHandle>,
    pub on_composition_end: Vec<EventListenerHandle>,
    pub on_before_input: Vec<EventListenerHandle>,
    pub on_text_input: Vec<EventListenerHandle>,
    /// The text input that was announced last and has not taken place yet.
    pub pending_input: BeforeInput,
}

/// The command, where the condition holds.
pub open spec fn provided(condition: bool, command: Command<Seq<char>>) -> Seq<
    Command<Seq<char>>,
> {
    if condition {
        seq![command]
    } else {
        seq![]
    }
}

/// The element that serves as the canvas.
pub open spec fn canvas_node(attr: WindowAttributes, nodes: CanvasNodes) -> NodeId {
    match attr.canvas {
        Some(canvas) => canvas,
        None => nodes.canvas,
    }
}

/// The canvas is put in the page: where that is asked for and it is not there. An element that
/// is yet to be made is nowhere.
pub open spec fn appends(attr: WindowAttributes, in_document: bool) -> bool {
    attr.append && (attr.canvas is None || !in_document)
}

/// What makes a canvas element where the attributes name none.
pub open spec fn making(attr: WindowAttributes, nodes: CanvasNodes) -> Seq<Command<Seq<char>>> {
    provided(
        attr.canvas is None,
        or_error(
            Action::CreateElement { node: canvas_node(attr, nodes), tag: "canvas"@ },
            "Failed to create canvas element"@,
        ),
    )
}

/// What looks for the place of the canvas element in the page.
pub open spec fn searching(attr: WindowAttributes, in_document: bool) -> Seq<Command<Seq<char>>> {
    provided(
        appends(attr, in_document),
        or_panic(Action::FindBody, "Failed to get body from document"@),
    )
}

/// What puts the canvas element in the page.
pub open spec fn appending(attr: WindowAttributes, nodes: CanvasNodes, in_document: bool) -> Seq<
    Command<Seq<char>>,
> {
    provided(
        appends(attr, in_document),
        or_panic(
            Action::AppendToBody { node: canvas_node(attr, nodes) },
            "Failed to append canvas to body"@,
        ),
    )
}

/// What lets the canvas element take the focus.
pub open spec fn indexing(attr: WindowAttributes, nodes: CanvasNodes) -> Seq<Command<Seq<char>>> {
    provided(
        attr.focusable,
        or_error(
            Action::SetAttribute {
                node: canvas_node(attr, nodes),
                name: "tabindex"@,
                value: "0"@,
            },
            "Failed to set a tabindex"@,
        ),
    )
}

/// What makes the canvas element and puts it in its place in the page.
pub open spec fn element_commands(
    attr: WindowAttributes,
    nodes: CanvasNodes,
    in_document: bool,
) -> Seq<Command<Seq<char>>> {
    making(attr, nodes) + searching(attr, in_document) + appending(attr, nodes, in_document)
        + indexing(attr, nodes)
}

/// What gives the canvas a cursor.
pub open spec fn cursor_commands(node: NodeId) -> Seq<Command<Seq<char>>> {
    seq![attempt(Action::MakeCursor { node })]
}

/// What gives the canvas one size or position, where the attributes have it.
pub open spec fn placing(attr: WindowAttributes, node: NodeId, what: Placement) -> Seq<
    Command<Seq<char>>,
> {
    provided(attr.asks(what), attempt(Action::Place { node, what }))
}

/// What gives the canvas the full screen, where that is asked for.
pub open spec fn screening(attr: WindowAttributes, document: NodeId, node: NodeId) -> Seq<
    Command<Seq<char>>,
> {
    provided(attr.fullscreen, attempt(Action::RequestFullscreen { document, node }))
}

/// What gives the canvas the focus, where that is asked for.
pub open spec fn focusing(attr: WindowAttributes, node: NodeId) -> Seq<Command<Seq<char>>> {
    provided(attr.active, attempt(Action::Focus { node }))
}

/// What gives a new canvas its sizes and position, the full screen and the focus.
pub open spec fn placement_commands(
    attr: WindowAttributes,
    document: NodeId,
    node: NodeId,
) -> Seq<Command<Seq<char>>> {
    placing(attr, node, Placement::InnerSize) + placing(attr, node, Placement::MinInnerSize)
        + placing(attr, node, Placement::MaxInnerSize) + placing(attr, node, Placement::Position)
        + screening(attr, document, node) + focusing(attr, node)
}

/// What makes a canvas.
pub open spec fn create_commands(
    attr: WindowAttributes,
    nodes: CanvasNodes,
    in_document: bool,
) -> Seq<Command<Seq<char>>> {
    element_commands(attr, nodes, in_document) + style_commands(
        nodes.window,
        canvas_node(attr, nodes),
    ) + creation(nodes.textarea, nodes.password) + cursor_commands(canvas_node(attr, nodes))
        + placement_commands(attr, nodes.document, canvas_node(attr, nodes))
}

/// What gives the text controls one attribute, or takes it from them where its value is empty.
pub open spec fn configure_one(ime_element: ImeElement, attribute: Attribute) -> Seq<
    Command<Seq<char>>,
> {
    if attribute.1.len() == 0 {
        ime_element.removal_commands(attribute.0)
    } else {
        ime_element.attribute_commands(attribute.0, attribute.1)
    }
}

/// What gives the text controls a list of attributes.
pub open spec fn configure(ime_element: ImeElement, attributes: Seq<Attribute>) -> Seq<
    Command<Seq<char>>,
>
    decreases attributes.len(),
{
    if attributes.len() == 0 {
        seq![]
    } else {
        configure(ime_element, attributes.drop_last()) + configure_one(
            ime_element,
            attributes.last(),
        )
    }
}

/// The smaller of two positions.
pub open spec fn at_most(position: u32, limit: u32) -> u32 {
    if position <= limit {
        position
    } else {
        limit
    }
}

/// What makes the active control hold a text with a selection, where it holds `current`. A
/// selection that goes past the end of the text ends there.
pub open spec fn text_state_commands(
    ime_element: ImeElement,
    current: Seq<char>,
    value: Seq<char>,
    selection_start: u32,
    selection_end: u32,
    selection_direction: WebSelectionDirection,
) -> Seq<Command<Seq<char>>> {
    let written = if current == value {
        seq![]
    } else {
        ime_element.value_commands(value)
    };
    written.push(
        attempt(
            Action::SetSelectionRange {
                node: ime_element.active(),
                start: at_most(selection_start, utf16_len_u32(value)),
                end: at_most(selection_end, utf16_len_u32(value)),
                direction: direction_name(selection_direction),
            },
        ),
    )
}

/// What follows from a change of scale under which the canvas has the size `current_size` and is
/// to have `new_size`: a canvas of another size is resized and its observer notified, without
/// which the program cannot go on, and a size that was not reported yet is reported.
pub open spec fn scale_change_commands(
    canvas: Canvas,
    current_size: PhysicalSize,
    new_size: PhysicalSize,
) -> Seq<Command<Seq<char>>> {
    if current_size != new_size {
        seq![
            attempt(Action::Resize { node: canvas.common.raw, size: new_size }),
            or_panic(
                Action::NotifyResize { observed: canvas.on_resize_scale is Some },
                "expected Window to still be active"@,
            ),
        ]
    } else if canvas.common.old_size != new_size {
        seq![attempt(Action::SendResized { id: canvas.id, size: new_size })]
    } else {
        seq![]
    }
}

/// The canvas once a change of scale was followed up: a size that the canvas has and is to keep
/// counts as reported.
pub open spec fn after_scale_change(
    canvas: Canvas,
    current_size: PhysicalSize,
    new_size: PhysicalSize,
) -> Canvas {
    let old_size = if current_size == new_size {
        new_size
    } else {
        canvas.common.old_size
    };
    Canvas { common: Common { old_size, ..canvas.common }, ..canvas }
}

/// What follows where the text controls may take the focus from now on, or may not.
pub open spec fn ime_allowed_commands(canvas: Canvas, allowed: bool) -> Option<
    Command<Seq<char>>,
> {
    if canvas.ime_allowed == allowed {
        None
    } else if allowed {
        Some(attempt(Action::Focus { node: canvas.ime_element.active() }))
    } else {
        Some(attempt(Action::Focus { node: canvas.common.raw }))
    }
}

/// Adds a command to a list where the condition holds.
fn push_if(commands: &mut Vec<Command<String>>, condition: bool, command: Command<String>)
    ensures
        listing(final(commands)@) == listing(old(commands)@) + provided(condition, command@),
{
    if condition {
        commands.push(command);
    }
    assert(listing(commands@) =~= listing(old(commands)@) + provided(condition, command@));
}

/// Adds commands to a list.
fn extend(commands: &mut Vec<Command<String>>, more: Vec<Command<String>>)
    ensures
        listing(final(commands)@) == listing(old(commands)@) + listing(more@),
{
    let mut more = more;
    let ghost added = more@;
    commands.append(&mut more);
    assert(listing(commands@) =~= listing(old(commands)@) + listing(added));
}

/// Makes the canvas element and puts it in its place in the page.
fn element_script(attr: WindowAttributes, nodes: CanvasNodes, in_document: bool) -> (r: Vec<
    Command<String>,
>)
    ensures
        listing(r@) == element_commands(attr, nodes, in_document),
{
    let mut commands: Vec<Command<String>> = Vec::new();
    let canvas = match attr.canvas {
        Some(canvas) => canvas,
        None => nodes.canvas,
    };
    push_if(
        &mut commands,
        attr.canvas.is_none(),
        Command::or_error(
            Action::CreateElement { node: canvas, tag: "canvas".to_owned() },
            "Failed to create canvas element",
        ),
    );

    let append = attr.append && (attr.canvas.is_none() || !in_document);
    push_if(
        &mut commands,
        append,
        Command::or_panic(Action::FindBody, "Failed to get body from document"),
    );
    push_if(
        &mut commands,
        append,
        Command::or_panic(Action::AppendToBody { node: canvas }, "Failed to append canvas to body"),
    );

    // A tab index lets the canvas receive keyboard events. With the value 0 it takes its place in
    // keyboard navigation by the order of the document.
    push_if(
        &mut commands,
        attr.focusable,
        Command::or_error(
            Action::SetAttribute {
                node: canvas,
                name: "tabindex".to_owned(),
                value: "0".to_owned(),
            },
            "Failed to set a tabindex",
        ),
    );
    assert(listing(commands@) =~= element_commands(attr, nodes, in_document));
    commands
}

/// Gives a new canvas a cursor.
fn cursor_script(node: NodeId) -> (r: Vec<Command<String>>)
    ensures
        listing(r@) == cursor_commands(node),
{
    let mut commands: Vec<Command<String>> = Vec::new();
    commands.push(Command::attempt(Action::MakeCursor { node }));
    assert(listing(commands@) =~= cursor_commands(node));
    commands
}

/// Gives a new canvas its sizes and position, the full screen and the focus.
fn placement_script(attr: WindowAttributes, document: NodeId, node: NodeId) -> (r: Vec<
    Command<String>,
>)
    ensures
        listing(r@) == placement_commands(attr, document, node),
{
    let mut commands: Vec<Command<String>> = Vec::new();
    push_if(
        &mut commands,
        attr.inner_size,
        Command::attempt(Action::Place { node, what: Placement::InnerSize }),
    );
    assert(listing(commands@) =~= placing(attr, node, Placement::InnerSize));
    push_if(
        &mut commands,
        attr.min_inner_size,
        Command::attempt(Action::Place { node, what: Placement::MinInnerSize }),
    );
    push_if(
        &mut commands,
        attr.max_inner_size,
        Command::attempt(Action::Place { node, what: Placement::MaxInnerSize }),
    );
    push_if(
        &mut commands,
        attr.position,
        Command::attempt(Action::Place { node, what: Placement::Position }),
    );
    push_if(
        &mut commands,
        attr.fullscreen,
        Command::attempt(Action::RequestFullscreen { document, node }),
    );
    push_if(&mut commands, attr.active, Command::attempt(Action::Focus { node }));
    commands
}

impl Canvas {
    /// The place holds the listener for the event on the target, or none.
    pub open spec fn holds(
        place: Option<EventListenerHandle>,
        target: NodeId,
        event: &'static str,
    ) -> bool {
        place matches Some(listener) ==> listener == (EventListenerHandle { target, event })
    }

    /// The place holds the listeners for the event on both text controls, or none.
    pub open spec fn holds_both(
        place: Seq<EventListenerHandle>,
        ime_element: ImeElement,
        event: &'static str,
    ) -> bool {
        place.len() == 0 || place == both(ime_element, event)
    }

    /// The canvas, the text controls and the document are different nodes, and every place for a
    /// listener holds the one it is for or none.
    pub open spec fn wf(self) -> bool {
        let raw = self.common.raw;
        let document = self.common.document;
        let ime = self.ime_element;
        &&& self.common.separate(ime)
        &&& self.common.style == style_of(raw)
        &&& Self::holds(self.on_touch_start, raw, "touchstart")
        &&& Self::holds(self.on_focus, raw, "focus")
        &&& Self::holds(self.on_blur, raw, "blur")
        &&& Self::holds(self.on_keyboard_release, raw, "keyup")
        &&& Self::holds(self.on_keyboard_press, raw, "keydown")
        &&& Self::holds_both(self.on_ime_keyboard_release@, ime, "keyup")
        &&& Self::holds_both(self.on_ime_keyboard_press@, ime, "keydown")
        &&& Self::holds(self.on_mouse_wheel, raw, "wheel")
        &&& self.on_touch_end is None
        &&& Self::holds(self.on_context_menu, raw, "contextmenu")
        &&& Self::holds(self.on_copy, document, "copy")
        &&& Self::holds(self.on_cut, document, "cut")
        &&& Self::holds(self.on_paste, document, "paste")
        &&& Self::holds_both(self.on_ime_focus@, ime, "focus")
        &&& Self::holds_both(self.on_ime_blur@, ime, "blur")
        &&& Self::holds_both(self.on_composition_start@, ime, "compositionstart")
        &&& Self::holds_both(self.on_composition_update@, ime, "compositionupdate")
        &&& Self::holds_both(self.on_composition_end@, ime, "compositionend")
        &&& Self::holds_both(self.on_before_input@, ime, "beforeinput")
        &&& Self::holds_both(self.on_text_input@, ime, "input")
        &&& self.on_dark_mode matches Some(handle) ==> handle == (MediaQueryListHandle {
            query: "(prefers-color-scheme: dark)",
        })
        &&& self.on_resize_scale matches Some(handle) ==> handle.target == raw
        &&& self.on_intersect matches Some(handle) ==> handle.target == raw
    }

    /// All listeners of the canvas.
    pub open spec fn listeners(self) -> Seq<EventListenerHandle> {
        single(self.on_touch_start) + single(self.on_focus) + single(self.on_blur) + single(
            self.on_keyboard_release,
        ) + single(self.on_keyboard_press) + self.on_ime_keyboard_release@
            + self.on_ime_keyboard_press@ + single(self.on_mouse_wheel) + single(self.on_touch_end)
            + single(self.on_context_menu) + single(self.on_copy) + single(self.on_cut) + single(
            self.on_paste,
        ) + self.on_ime_focus@ + self.on_ime_blur@ + self.on_composition_start@
            + self.on_composition_update@ + self.on_composition_end@ + self.on_before_input@
            + self.on_text_input@
    }

    /// A canvas that listens to nothing yet.
    fn fresh(
        common: Common,
        id: WindowId,
        attr: WindowAttributes,
        ime_element: ImeElement,
    ) -> (r: Self)
        ensures
            r.common == common,
            r.id == id,
            !r.has_focus,
            r.prevent_default == attr.prevent_default,
            r.browser_defaults == attr.browser_defaults,
            r.is_intersecting is None,
            r.ime_element == ime_element,
            !r.ime_allowed,
            r.pending_input.is_blank(),
            r.listeners().len() == 0,
            r.pointer_handler == PointerHandler::none(),
            r.on_dark_mode is None,
            r.on_resize_scale is None,
            r.on_intersect is None,
            common.separate(ime_element) && common.style == style_of(common.raw) ==> r.wf(),
    {
        Canvas {
            common,
            id,
            has_focus: false,
            prevent_default: attr.prevent_default,
            browser_defaults: attr.browser_defaults,
            is_intersecting: None,
            on_touch_start: None,
            on_focus: None,
            on_blur: None,
            on_keyboard_release: None,
            on_keyboard_press: None,
            on_ime_keyboard_release: Vec::new(),
            on_ime_keyboard_press: Vec::new(),
            on_mouse_wheel: None,
            on_dark_mode: None,
            pointer_handler: PointerHandler::new(),
            on_resize_scale: None,
            on_intersect: None,
            on_touch_end: None,
            on_context_menu: None,
            on_copy: None,
            on_cut: None,
            on_paste: None,
            ime_element,
            ime_allowed: false,
            on_ime_focus: Vec::new(),
            on_ime_blur: Vec::new(),
            on_composition_start: Vec::new(),
            on_composition_update: Vec::new(),
            on_composition_end: Vec::new(),
            on_before_input: Vec::new(),
            on_text_input: Vec::new(),
            pending_input: BeforeInput::blank(),
        }
    }

    /// Makes a canvas. `in_document` says whether the document contains the element that the
    /// attributes name; where they name none it is of no account. The attributes give the element
    /// away. Where a command fails whose failure is of account, there is no canvas.
    pub fn create(
        id: WindowId,
        nodes: CanvasNodes,
        attr: &mut WindowAttributes,
        in_document: bool,
    ) -> (r: (Self, Vec<Command<String>>))
        ensures
            *final(attr) == (WindowAttributes { canvas: None, ..*old(attr) }),
            listing(r.1@) == create_commands(*old(attr), nodes, in_document),
            r.0.common == (Common {
                window: nodes.window,
                document: nodes.document,
                raw: canvas_node(*old(attr), nodes),
                style: style_of(canvas_node(*old(attr), nodes)),
                old_size: PhysicalSize { width: 0, height: 0 },
                current_size: PhysicalSize { width: 0, height: 0 },
            }),
            r.0.id == id,
            !r.0.has_focus,
            r.0.prevent_default == old(attr).prevent_default,
            r.0.browser_defaults == old(attr).browser_defaults,
            r.0.is_intersecting is None,
            r.0.ime_element == (ImeElement {
                textarea: nodes.textarea,
                password: nodes.password,
                password_active: false,
            }),
            !r.0.ime_allowed,
            r.0.pending_input.is_blank(),
            r.0.listeners().len() == 0,
            r.0.pointer_handler == PointerHandler::none(),
            r.0.on_dark_mode is None,
            r.0.on_resize_scale is None,
            r.0.on_intersect is None,
            r.0.common.separate(r.0.ime_element) ==> r.0.wf(),
    {
        let mut commands = element_script(*attr, nodes, in_document);
        let canvas = match attr.canvas.take() {
            Some(canvas) => canvas,
            None => nodes.canvas,
        };

        let (style, style_script) = Style::new(nodes.window, canvas);
        extend(&mut commands, style_script);

        let (ime_element, ime_script) = ImeElement::create(nodes.textarea, nodes.password);
        extend(&mut commands, ime_script);

        extend(&mut commands, cursor_script(canvas));

        extend(&mut commands, placement_script(*attr, nodes.document, canvas));

        let common = Common {
            window: nodes.window,
            document: nodes.document,
            raw: canvas,
            style,
            old_size: PhysicalSize { width: 0, height: 0 },
            current_size: PhysicalSize { width: 0, height: 0 },
        };
        (Canvas::fresh(common, id, *attr, ime_element), commands)
    }

    /// Locks the cursor to the canvas, or frees it.
    pub fn set_cursor_lock(&self, lock: bool) -> (r: Result<Command<String>, Failure<String>>)
        ensures
            r matches Ok(command) && command@ == attempt(
                if lock {
                    Action::RequestPointerLock { node: self.common.raw }
                } else {
                    Action::ExitPointerLock { document: self.common.document }
                },
            ),
    {
        if lock {
            Ok(Command::attempt(Action::RequestPointerLock { node: self.raw() }))
        } else {
            Ok(Command::attempt(Action::ExitPointerLock { document: self.document() }))
        }
    }

    /// Gives the canvas element an attribute. The browser refuses only what is no attribute name.
    pub fn set_attribute(&self, attribute: &str, value: &str) -> (r: Command<String>)
        ensures
            r@ == or_panic(
                Action::SetAttribute {
                    node: self.common.raw,
                    name: attribute@,
                    value: value@,
                },
                "Set attribute: "@ + attribute@,
            ),
    {
        Command::or_panic(
            Action::SetAttribute {
                node: self.raw(),
                name: attribute.to_owned(),
                value: value.to_owned(),
            },
            "Set attribute: ".to_owned().concat(attribute).as_str(),
        )
    }

    /// What the position of the content is set off by from the position of the box: nothing where
    /// the canvas is not laid out. `in_document` says whether the document contains the canvas,
    /// and `display` is the resolved property of that name.
    pub fn position(&self, in_document: bool, display: &str) -> (r: Option<Insets>)
        ensures
            r == if in_document && display@ != "none"@ {
                Some(
                    Insets {
                        border_left: "border-left-width",
                        padding_left: "padding-left",
                        border_top: "border-top-width",
                        padding_top: "padding-top",
                    },
                )
            } else {
                None
            },
    {
        if in_document && !same_text(display, "none") {
            Some(
                Insets {
                    border_left: "border-left-width",
                    padding_left: "padding-left",
                    border_top: "border-top-width",
                    padding_top: "padding-top",
                },
            )
        } else {
            None
        }
    }

    /// The size that was last reported.
    pub fn old_size(&self) -> (r: PhysicalSize)
        ensures
            r == self.common.old_size,
    {
        self.common.old_size
    }

    /// The size that the canvas has.
    pub fn inner_size(&self) -> (r: PhysicalSize)
        ensures
            r == self.common.current_size,
    {
        self.common.current_size
    }

    pub fn set_old_size(&mut self, size: PhysicalSize)
        ensures
            *final(self) == (Canvas {
                common: Common { old_size: size, ..old(self).common },
                ..*old(self)
            }),
            old(self).wf() ==> final(self).wf(),
    {
        self.common.old_size = size;
    }

    pub fn set_current_size(&mut self, size: PhysicalSize)
        ensures
            *final(self) == (Canvas {
                common: Common { current_size: size, ..old(self).common },
                ..*old(self)
            }),
            old(self).wf() ==> final(self).wf(),
    {
        self.common.current_size = size;
    }

    pub fn window(&self) -> (r: NodeId)
        ensures
            r == self.common.window,
    {
        self.common.window
    }

    pub fn document(&self) -> (r: NodeId)
        ensures
            r == self.common.document,
    {
        self.common.document
    }

    /// The canvas element.
    pub fn raw(&self) -> (r: NodeId)
        ensures
            r == self.common.raw,
    {
        self.common.raw
    }

    pub fn style(&self) -> (r: &Style)
        ensures
            *r == self.common.style,
    {
        &self.common.style
    }

    /// Lets the text controls take the focus, or takes it back to the canvas. Nothing happens
    /// where it was so before.
    pub fn set_ime_allowed(&mut self, allowed: bool) -> (r: Option<Command<String>>)
        ensures
            *final(self) == (Canvas { ime_allowed: allowed, ..*old(self) }),
            ime_allowed_commands(*old(self), allowed) == match r {
                Some(command) => Some(command@),
                None => None,
            },
            old(self).wf() ==> final(self).wf(),
    {
        if self.ime_allowed == allowed {
            return None;
        }
        self.ime_allowed = allowed;
        if allowed {
            Some(self.ime_element.focus())
        } else {
            Some(Command::attempt(Action::Focus { node: self.common.raw }))
        }
    }

    /// Puts the active control where the cursor is. `left` and `top` are the coordinates in the
    /// page, in decimal.
    pub fn set_ime_cursor_area(&self, left: &str, top: &str) -> (r: Vec<Command<String>>)
        ensures
            listing(r@) == ({
                let style = Declaration::Inline(self.ime_element.active());
                seq![
                    attempt(
                        Action::SetProperty { style, property: "left"@, value: left@ + "px"@ },
                    ),
                    attempt(Action::SetProperty { style, property: "top"@, value: top@ + "px"@ }),
                ]
            }),
    {
        let style = self.ime_element.style();
        let mut commands: Vec<Command<String>> = Vec::new();
        commands.push(
            Command::attempt(
                Action::SetProperty {
                    style,
                    property: "left".to_owned(),
                    value: left.to_owned().concat("px"),
                },
            ),
        );
        commands.push(
            Command::attempt(
                Action::SetProperty {
                    style,
                    property: "top".to_owned(),
                    value: top.to_owned().concat("px"),
                },
            ),
        );
        assert(listing(commands@) =~= seq![commands@[0]@, commands@[1]@]);
        commands
    }

    /// Tells the browser what the text is for. Every purpose takes plain text.
    pub fn set_ime_purpose(&self, purpose: ImePurpose) -> (r: Vec<Command<String>>)
        ensures
            listing(r@) == self.ime_element.attribute_commands("inputmode"@, "text"@),
    {
        let input_mode = match purpose {
            ImePurpose::Terminal => "text",
            _ => "text",
        };
        self.ime_element.set_attribute("inputmode", input_mode)
    }

    /// Makes the active control hold a text with a selection, given in UTF-16 code units.
    /// `controls` is what the text controls hold so far.
    pub fn set_ime_text_state(
        &self,
        controls: &Controls,
        value: &str,
        selection_start: u32,
        selection_end: u32,
        selection_direction: WebSelectionDirection,
    ) -> (r: Vec<Command<String>>)
        ensures
            listing(r@) == text_state_commands(
                self.ime_element,
                self.ime_element.active_state(*controls).value@,
                value@,
                selection_start,
                selection_end,
                selection_direction,
            ),
    {
        let mut commands: Vec<Command<String>> = if !same_text(
            self.ime_element.value(controls).as_str(),
            value,
        ) {
            self.ime_element.set_value(value)
        } else {
            Vec::new()
        };
        let ghost written = listing(commands@);
        let direction = match selection_direction {
            WebSelectionDirection::Backward => "backward",
            WebSelectionDirection::Forward => "forward",
            WebSelectionDirection::Undirected => "none",
        };
        let text_len: u32 = utf16_units(value);
        let start: u32 = if selection_start <= text_len {
            selection_start
        } else {
            text_len
        };
        let end: u32 = if selection_end <= text_len {
            selection_end
        } else {
            text_len
        };
        let selection = self.ime_element.set_selection_range(start, end, direction);
        let ghost selected = selection@;
        commands.push(selection);
        assert(listing(commands@) =~= written.push(selected));
        commands
    }

    /// Presents the text controls to the browser as the configuration says. `focused` is the
    /// element of the document that has the focus.
    pub fn set_web_ime_configuration(
        &mut self,
        configuration: &WebImeConfiguration,
        focused: Option<NodeId>,
    ) -> (r: Vec<Command<String>>)
        ensures
            *final(self) == (Canvas {
                ime_element: ImeElement {
                    password_active: configuration.secure,
                    ..old(self).ime_element
                },
                ..*old(self)
            }),
            listing(r@) == old(self).ime_element.switch_commands(configuration.secure, focused)
                + configure(final(self).ime_element, configuration.attributes()),
            old(self).wf() ==> final(self).wf(),
    {
        let mut commands = self.ime_element.set_password_active(configuration.secure, focused);
        let ghost switched = listing(commands@);
        let entries: Vec<(&str, &str)> = vec![
            ("name", configuration.name.as_str()),
            ("inputmode", configuration.input_mode.as_str()),
            ("enterkeyhint", configuration.enter_key_hint.as_str()),
            ("autocomplete", configuration.autocomplete.as_str()),
            ("autocapitalize", configuration.autocapitalize.as_str()),
            ("autocorrect", if configuration.autocorrect { "on" } else { "off" }),
            ("spellcheck", if configuration.spellcheck { "true" } else { "false" }),
            ("aria-label", configuration.aria_label.as_str()),
            ("aria-required", if configuration.required { "true" } else { "false" }),
            ("aria-invalid", if configuration.invalid { "true" } else { "false" }),
            ("aria-description", configuration.aria_description.as_str()),
        ];
        let ghost attributes = configuration.attributes();
        assert(entries@.map_values(|e: (&str, &str)| (e.0@, e.1@)) =~= attributes);
        let mut i: usize = 0;
        assert(listing(commands@) =~= switched + configure(self.ime_element, attributes.take(0)));
        while i < entries.len()
            invariant
                i <= entries@.len(),
                attributes == entries@.map_values(|e: (&str, &str)| (e.0@, e.1@)),
                listing(commands@) == switched + configure(
                    self.ime_element,
                    attributes.take(i as int),
                ),
            decreases entries@.len() - i,
        {
            let (name, value) = entries[i];
            let step = if value.is_empty() {
                self.ime_element.remove_attribute(name)
            } else {
                self.ime_element.set_attribute(name, value)
            };
            proof {
                assert(attributes[i as int] == (name@, value@));
                assert(attributes.take(i + 1).drop_last() =~= attributes.take(i as int));
                assert(attributes.take(i + 1).last() == attributes[i as int]);
            }
            let ghost before = listing(commands@);
            let ghost added = listing(step@);
            extend(&mut commands, step);
            assert(before + added =~= switched + configure(
                self.ime_element,
                attributes.take(i + 1),
            ));
            i = i + 1;
        }
        assert(attributes.take(entries@.len() as int) =~= attributes);
        commands
    }

    pub fn request_fullscreen(&self) -> (r: Command<String>)
        ensures
            r@ == attempt(
                Action::RequestFullscreen { document: self.common.document, node: self.common.raw },
            ),
    {
        Command::attempt(Action::RequestFullscreen { document: self.document(), node: self.raw() })
    }

    pub fn exit_fullscreen(&self) -> (r: Command<String>)
        ensures
            r@ == attempt(
                Action::ExitFullscreen { document: self.common.document, node: self.common.raw },
            ),
    {
        Command::attempt(Action::ExitFullscreen { document: self.document(), node: self.raw() })
    }

    pub fn request_animation_frame(&self) -> (r: Command<String>)
        ensures
            r@ == attempt(Action::RequestAnimationFrame),
    {
        Command::attempt(Action::RequestAnimationFrame)
    }

    /// Takes note of the size that the canvas has under a new scale. The change is announced to
    /// the window with this size, and whoever takes the announcement may ask for another one.
    pub fn begin_scale_change(&mut self, current_size: PhysicalSize) -> (r: (
        WindowId,
        PhysicalSize,
    ))
        ensures
            *final(self) == (Canvas {
                common: Common { current_size, ..old(self).common },
                ..*old(self)
            }),
            r == (old(self).id, current_size),
            old(self).wf() ==> final(self).wf(),
    {
        self.set_current_size(current_size);
        (self.id, current_size)
    }

    /// Whether the size of the canvas is observed.
    pub fn resize_observed(&self) -> (r: bool)
        ensures
            r == (self.on_resize_scale is Some),
    {
        self.on_resize_scale.is_some()
    }

    /// Follows up a change of scale, once the announcement of `current_size` was answered with
    /// `new_size`. Another size takes an observer.
    pub fn handle_scale_change(&mut self, current_size: PhysicalSize, new_size: PhysicalSize) -> (r:
        Vec<Command<String>>)
        ensures
            listing(r@) == scale_change_commands(*old(self), current_size, new_size),
            *final(self) == after_scale_change(*old(self), current_size, new_size),
            old(self).wf() ==> final(self).wf(),
    {
        let mut commands: Vec<Command<String>> = Vec::new();
        if current_size != new_size {
            // The resize observer reports the new size.
            commands.push(Command::attempt(Action::Resize { node: self.raw(), size: new_size }));
            // The size may come out the same, in which case the observer would say nothing.
            commands.push(
                Command::or_panic(
                    Action::NotifyResize { observed: self.resize_observed() },
                    "expected Window to still be active",
                ),
            );
        } else if self.old_size() != new_size {
            self.set_old_size(new_size);
            commands.push(
                Command::attempt(Action::SendResized { id: self.id, size: new_size }),
            );
        }
        assert(listing(commands@) =~= scale_change_commands(*old(self), current_size, new_size));
        commands
    }
}

} // verus!
