//! Keyboard events: which of them the browser keeps, and what is reported of them.

use smol_str::SmolStr;
use vstd::prelude::*;

use crate::text::{ascii_lowercase, spells, to_ascii_lowercase};

verus! {

/// The immutable string type of the crate `smol_str`. A value is only carried through, so
/// nothing is said of what it holds.
#[verifier::external_type_specification]
#[verifier::external_body]
pub struct ExSmolStr(SmolStr);

/// What the rules read of a keyboard event.
#[derive(PartialEq, Eq, Debug)]
pub struct KeyboardEvent {
    /// The value of the key, such as `c` or `Insert`.
    pub key: String,
    pub ctrl_key: bool,
    pub meta_key: bool,
    pub shift_key: bool,
    pub alt_key: bool,
    /// The event belongs to a composition of an input method.
    pub is_composing: bool,
    /// The key is held down and the event is not the first one.
    pub repeat: bool,
}

/// What is reported of a keyboard event: the physical key `P`, the logical key `K`, the text that
/// the key produces, the location `L` of the key and the modifiers `M`.
#[derive(PartialEq, Eq, Debug)]
pub struct KeyReport<P, K, L, M> {
    pub physical_key: P,
    pub key: K,
    pub text: Option<SmolStr>,
    pub location: L,
    pub repeat: bool,
    pub modifiers: M,
}

/// The answer to a keyboard event. The browser is kept from handling the event before the report
/// is handed out.
#[derive(PartialEq, Eq, Debug)]
pub struct KeyResponse<P, K, L, M> {
    pub prevent_default: bool,
    pub report: KeyReport<P, K, L, M>,
}

/// The chord is one by which browsers copy, cut or paste. Keys are compared without regard to the
/// case of ASCII letters, and a chord with Alt is none.
pub open spec fn clipboard_accelerator(
    key: Seq<char>,
    ctrl: bool,
    meta: bool,
    shift: bool,
    alt: bool,
) -> bool {
    let key = ascii_lowercase(key);
    &&& !alt
    &&& {
        ||| (ctrl || meta) && (key == "c"@ || key == "x"@ || key == "v"@)
        ||| ctrl && key == "insert"@
        ||| shift && (key == "insert"@ || key == "delete"@)
    }
}

/// The event is one of a clipboard chord.
pub open spec fn clipboard_shortcut(event: KeyboardEvent) -> bool {
    clipboard_accelerator(
        event.key@,
        event.ctrl_key,
        event.meta_key,
        event.shift_key,
        event.alt_key,
    )
}

/// Whether the chord is one by which browsers copy, cut or paste.
pub fn is_clipboard_accelerator(key: &str, ctrl: bool, meta: bool, shift: bool, alt: bool) -> (r:
    bool)
    ensures
        r == clipboard_accelerator(key@, ctrl, meta, shift, alt),
{
    if alt {
        return false;
    }
    let primary = ctrl || meta;
    let key = to_ascii_lowercase(key);
    (primary && (spells(&key, "c") || spells(&key, "x") || spells(&key, "v"))) || (ctrl && spells(
        &key,
        "insert",
    )) || (shift && (spells(&key, "insert") || spells(&key, "delete")))
}

/// Whether the event is one of a clipboard chord.
pub fn is_clipboard_shortcut(event: &KeyboardEvent) -> (r: bool)
    ensures
        r == clipboard_shortcut(*event),
{
    is_clipboard_accelerator(
        event.key.as_str(),
        event.ctrl_key,
        event.meta_key,
        event.shift_key,
        event.alt_key,
    )
}

} // verus!
