//! What the text controls report: composition, text input and their configuration.

use vstd::prelude::*;

verus! {

/// An event of an input method. `S` is the type of its text.
#[derive(PartialEq, Eq, Debug)]
pub enum Ime<S> {
    Enabled,
    /// The text of the composition, with the range of bytes at which the cursor stands.
    Preedit(S, Option<(usize, usize)>),
    Disabled,
}

/// What an event of the text controls reports.
#[derive(PartialEq, Eq, Debug)]
pub enum ImeReport<S> {
    /// The window has the focus, or has lost it.
    Focus(bool),
    Ime(Ime<S>),
}

impl View for Ime<String> {
    type V = Ime<Seq<char>>;

    open spec fn view(&self) -> Ime<Seq<char>> {
        match *self {
            Ime::Enabled => Ime::Enabled,
            Ime::Preedit(text, cursor) => Ime::Preedit(text@, cursor),
            Ime::Disabled => Ime::Disabled,
        }
    }
}

impl View for ImeReport<String> {
    type V = ImeReport<Seq<char>>;

    open spec fn view(&self) -> ImeReport<Seq<char>> {
        match *self {
            ImeReport::Focus(focused) => ImeReport::Focus(focused),
            ImeReport::Ime(event) => ImeReport::Ime(event@),
        }
    }
}

/// The reports of a list, with their texts as sequences of characters.
pub open spec fn reports(list: Seq<ImeReport<String>>) -> Seq<ImeReport<Seq<char>>> {
    list.map_values(|r: ImeReport<String>| r@)
}

/// The direction of a selection.
#[derive(Clone, Copy, PartialEq, Eq, Debug, Structural)]
pub enum WebSelectionDirection {
    Backward,
    Forward,
    Undirected,
}

/// The word by which pages name a direction.
pub open spec fn direction_name(direction: WebSelectionDirection) -> Seq<char> {
    match direction {
        WebSelectionDirection::Backward => "backward"@,
        WebSelectionDirection::Forward => "forward"@,
        WebSelectionDirection::Undirected => "none"@,
    }
}

/// The direction that a word of the page names. Every other word names none.
pub open spec fn direction_of(name: Option<Seq<char>>) -> WebSelectionDirection {
    if name == Some("backward"@) {
        WebSelectionDirection::Backward
    } else if name == Some("forward"@) {
        WebSelectionDirection::Forward
    } else {
        WebSelectionDirection::Undirected
    }
}

/// The text of an optional string.
pub open spec fn text_of(text: Option<String>) -> Option<Seq<char>> {
    match text {
        Some(text) => Some(text@),
        None => None,
    }
}

/// An announcement of text input that has not taken place yet.
#[derive(PartialEq, Eq, Debug)]
pub struct BeforeInput {
    pub input_type: String,
    pub data: Option<String>,
    pub cancelable: bool,
}

impl BeforeInput {
    /// Nothing is announced.
    pub open spec fn is_blank(self) -> bool {
        self.input_type@ == Seq::<char>::empty() && self.data is None && !self.cancelable
    }

    pub fn blank() -> (r: Self)
        ensures
            r.is_blank(),
    {
        BeforeInput { input_type: String::new(), data: None, cancelable: false }
    }
}

/// What is read of an event of text input.
#[derive(PartialEq, Eq, Debug)]
pub struct InputEvent {
    pub input_type: String,
    pub data: Option<String>,
    pub is_composing: bool,
}

/// What is reported of text input.
#[derive(PartialEq, Eq, Debug)]
pub struct WebTextInputEvent {
    pub value: String,
    pub selection_start: u32,
    pub selection_end: u32,
    pub selection_direction: WebSelectionDirection,
    pub input_type: String,
    pub data: Option<String>,
    pub is_composing: bool,
    pub before_input_cancelable: bool,
}

/// What the text is for that is put in.
#[derive(Clone, Copy, PartialEq, Eq, Debug, Structural)]
pub enum ImePurpose {
    Normal,
    Password,
    Terminal,
}

/// How the text controls present themselves to the browser.
#[derive(PartialEq, Eq, Debug)]
pub struct WebImeConfiguration {
    /// The input is secret.
    pub secure: bool,
    pub name: String,
    pub input_mode: String,
    pub enter_key_hint: String,
    pub autocomplete: String,
    pub autocapitalize: String,
    pub autocorrect: bool,
    pub spellcheck: bool,
    pub aria_label: String,
    pub required: bool,
    pub invalid: bool,
    pub aria_description: String,
}

/// An attribute with its value.
pub type Attribute = (Seq<char>, Seq<char>);

/// `"true"` or `"false"`.
pub open spec fn truth(b: bool) -> Seq<char> {
    if b {
        "true"@
    } else {
        "false"@
    }
}

/// `"on"` or `"off"`.
pub open spec fn switch(b: bool) -> Seq<char> {
    if b {
        "on"@
    } else {
        "off"@
    }
}

impl WebImeConfiguration {
    /// The attributes that a configuration stands for. An attribute with an empty value is left
    /// off.
    pub open spec fn attributes(self) -> Seq<Attribute> {
        seq![
            ("name"@, self.name@),
            ("inputmode"@, self.input_mode@),
            ("enterkeyhint"@, self.enter_key_hint@),
            ("autocomplete"@, self.autocomplete@),
            ("autocapitalize"@, self.autocapitalize@),
            ("autocorrect"@, switch(self.autocorrect)),
            ("spellcheck"@, truth(self.spellcheck)),
            ("aria-label"@, self.aria_label@),
            ("aria-required"@, truth(self.required)),
            ("aria-invalid"@, truth(self.invalid)),
            ("aria-description"@, self.aria_description@),
        ]
    }
}

} // verus!
