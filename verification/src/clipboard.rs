//! Copying, cutting and pasting.

use vstd::prelude::*;

verus! {

/// The format in which text is on the clipboard.
pub const CLIPBOARD_FORMAT: &'static str = "text/plain";

/// What the user does with the clipboard.
#[derive(Clone, Copy, PartialEq, Eq, Debug, Structural)]
pub enum WebClipboardAction {
    Copy,
    Cut,
    Paste,
}

/// A request of the user that concerns the clipboard. Whoever takes it may answer with a text to
/// be put on the clipboard.
#[derive(PartialEq, Eq, Debug)]
pub struct WebClipboardEvent {
    pub action: WebClipboardAction,
    /// The text that is pasted.
    pub text: Option<String>,
    pub response: Option<String>,
}

impl WebClipboardEvent {
    /// A request that has no answer yet.
    pub fn new(action: WebClipboardAction, text: Option<String>) -> (r: Self)
        ensures
            r == (WebClipboardEvent { action, text, response: None }),
    {
        WebClipboardEvent { action, text, response: None }
    }

    /// Answers the request; a later answer takes the place of an earlier one.
    pub fn respond(&mut self, text: String)
        ensures
            *final(self) == (WebClipboardEvent { response: Some(text), ..*old(self) }),
    {
        self.response = Some(text);
    }

    /// Takes the answer, if there is one.
    pub fn take_response(&mut self) -> (r: Option<String>)
        ensures
            r == old(self).response,
            *final(self) == (WebClipboardEvent { response: None, ..*old(self) }),
    {
        self.response.take()
    }
}

/// What follows from the answer to a request.
#[derive(PartialEq, Eq, Debug)]
pub struct ClipboardResponse {
    /// The text to put on the clipboard.
    pub set_data: Option<String>,
    /// The browser is kept from handling the event.
    pub prevent_default: bool,
}

} // verus!
