//! Which events keep the browser's own handling.

use vstd::prelude::*;

verus! {

/// A kind of event that the browser handles by itself unless it is kept from doing so.
#[derive(Clone, Copy, PartialEq, Eq, Debug, Structural)]
pub enum BrowserDefault {
    Touch,
    Keyboard,
    Wheel,
    ContextMenu,
    Clipboard,
}

/// The kinds of events whose handling is left to the browser.
#[derive(Clone, Copy, PartialEq, Eq, Debug, Structural)]
pub struct BrowserDefaults {
    pub touch: bool,
    pub keyboard: bool,
    pub wheel: bool,
    pub context_menu: bool,
    pub clipboard: bool,
}

impl BrowserDefaults {
    /// The kind is left to the browser.
    pub open spec fn has(self, kind: BrowserDefault) -> bool {
        match kind {
            BrowserDefault::Touch => self.touch,
            BrowserDefault::Keyboard => self.keyboard,
            BrowserDefault::Wheel => self.wheel,
            BrowserDefault::ContextMenu => self.context_menu,
            BrowserDefault::Clipboard => self.clipboard,
        }
    }

    /// Whether the kind is left to the browser.
    pub fn contains(&self, kind: BrowserDefault) -> (r: bool)
        ensures
            r == self.has(kind),
    {
        match kind {
            BrowserDefault::Touch => self.touch,
            BrowserDefault::Keyboard => self.keyboard,
            BrowserDefault::Wheel => self.wheel,
            BrowserDefault::ContextMenu => self.context_menu,
            BrowserDefault::Clipboard => self.clipboard,
        }
    }
}

/// The browser is kept from handling events of the kind.
pub open spec fn withheld(
    prevent_default: bool,
    browser_defaults: BrowserDefaults,
    kind: BrowserDefault,
) -> bool {
    prevent_default && !browser_defaults.has(kind)
}

} // verus!
