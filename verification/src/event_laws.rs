//! What holds of the answers to events, whatever the canvas and the event are.

use vstd::prelude::*;
use vstd::utf8::encode_utf8;

use crate::canvas::Canvas;
use crate::clipboard::WebClipboardAction;
use crate::defaults::{withheld, BrowserDefault, BrowserDefaults};
use crate::events::{
    blur_reported, clipboard_read, clipboard_request, ime_blur_reports, ime_focus_reports,
    is_preedit, key_withheld, text_input_report,
};
use crate::ime::{ControlState, Controls, ImeElement};
use crate::input::{BeforeInput, Ime, ImeReport, InputEvent, WebSelectionDirection};
use crate::keyboard::{clipboard_accelerator, clipboard_shortcut, KeyboardEvent};
use crate::text::{ascii_lower, ascii_lowercase};
use crate::types::{NodeId, ReadError};

verus! {

/// The browser is kept from events of a kind exactly where it is to be kept from events and the
/// flag of that very kind is off.
pub proof fn each_kind_has_its_flag(prevent_default: bool, defaults: BrowserDefaults)
    ensures
        withheld(prevent_default, defaults, BrowserDefault::Touch) <==> prevent_default
            && !defaults.touch,
        withheld(prevent_default, defaults, BrowserDefault::Keyboard) <==> prevent_default
            && !defaults.keyboard,
        withheld(prevent_default, defaults, BrowserDefault::Wheel) <==> prevent_default
            && !defaults.wheel,
        withheld(prevent_default, defaults, BrowserDefault::ContextMenu) <==> prevent_default
            && !defaults.context_menu,
        withheld(prevent_default, defaults, BrowserDefault::Clipboard) <==> prevent_default
            && !defaults.clipboard,
{
}

/// The character is the small letter or its capital.
pub open spec fn same_letter(c: char, small: char) -> bool {
    c == small || c as int + 32 == small as int
}

/// The key is the word, in capital or small letters.
pub open spec fn spelled(key: Seq<char>, word: Seq<char>) -> bool {
    key.len() == word.len() && forall|i: int|
        0 <= i < key.len() ==> same_letter(#[trigger] key[i], word[i])
}

/// The keys copy, cut or paste: C, X or V with Ctrl or Meta, Insert with Ctrl or Shift, Delete
/// with Shift, and none of them with Alt.
pub open spec fn is_chord(key: Seq<char>, ctrl: bool, meta: bool, shift: bool, alt: bool) -> bool {
    &&& !alt
    &&& {
        ||| (ctrl || meta) && key.len() == 1 && (same_letter(key[0], 'c') || same_letter(
            key[0],
            'x',
        ) || same_letter(key[0], 'v'))
        ||| (ctrl || shift) && spelled(key, seq!['i', 'n', 's', 'e', 'r', 't'])
        ||| shift && spelled(key, seq!['d', 'e', 'l', 'e', 't', 'e'])
    }
}

proof fn lowered_as_spelled(key: Seq<char>, word: Seq<char>)
    requires
        forall|i: int| 0 <= i < word.len() ==> 'a' <= #[trigger] word[i] <= 'z',
    ensures
        ascii_lowercase(key) == word <==> spelled(key, word),
{
    let lower = ascii_lowercase(key);
    if lower == word {
        assert forall|i: int| 0 <= i < key.len() implies same_letter(
            #[trigger] key[i],
            word[i],
        ) by {
            assert(lower[i] == ascii_lower(key[i]));
            assert('a' <= word[i] <= 'z');
        }
    }
    if spelled(key, word) {
        assert forall|i: int| 0 <= i < key.len() implies lower[i] == word[i] by {
            assert(same_letter(key[i], word[i]));
            assert('a' <= word[i] <= 'z');
            assert(lower[i] == ascii_lower(key[i]));
        }
        assert(lower =~= word);
    }
}

/// The chords of the clipboard are those that copy, cut or paste, and no others.
pub proof fn the_chords_are_known(
    key: Seq<char>,
    ctrl: bool,
    meta: bool,
    shift: bool,
    alt: bool,
)
    ensures
        clipboard_accelerator(key, ctrl, meta, shift, alt) <==> is_chord(
            key,
            ctrl,
            meta,
            shift,
            alt,
        ),
{
    reveal_strlit("c");
    reveal_strlit("x");
    reveal_strlit("v");
    reveal_strlit("insert");
    reveal_strlit("delete");
    assert("c"@ =~= seq!['c'] && "x"@ =~= seq!['x'] && "v"@ =~= seq!['v']);
    assert("insert"@ =~= seq!['i', 'n', 's', 'e', 'r', 't']);
    assert("delete"@ =~= seq!['d', 'e', 'l', 'e', 't', 'e']);
    lowered_as_spelled(key, "c"@);
    lowered_as_spelled(key, "x"@);
    lowered_as_spelled(key, "v"@);
    lowered_as_spelled(key, "insert"@);
    lowered_as_spelled(key, "delete"@);
    assert(spelled(key, "c"@) <==> key.len() == 1 && same_letter(key[0], 'c'));
    assert(spelled(key, "x"@) <==> key.len() == 1 && same_letter(key[0], 'x'));
    assert(spelled(key, "v"@) <==> key.len() == 1 && same_letter(key[0], 'v'));
}

/// A key is withheld from the browser exactly where the browser is to be kept from events, the
/// keyboard is not left to it, the key belongs to no composition, and it is no chord of the
/// clipboard. So nothing is withheld of a canvas that keeps the browser from nothing.
pub proof fn a_key_is_withheld_for_these_reasons(canvas: Canvas, event: KeyboardEvent)
    ensures
        key_withheld(canvas, event) <==> canvas.prevent_default && !canvas.browser_defaults.keyboard
            && !event.is_composing && !is_chord(
            event.key@,
            event.ctrl_key,
            event.meta_key,
            event.shift_key,
            event.alt_key,
        ),
        clipboard_shortcut(event) <==> is_chord(
            event.key@,
            event.ctrl_key,
            event.meta_key,
            event.shift_key,
            event.alt_key,
        ),
        !canvas.prevent_default ==> !key_withheld(canvas, event),
{
    the_chords_are_known(
        event.key@,
        event.ctrl_key,
        event.meta_key,
        event.shift_key,
        event.alt_key,
    );
}

/// Whether a key is held down is of no account to whether it is withheld, and no more is anything
/// of the canvas but its settings.
pub proof fn only_the_settings_count_for_keys(
    one: Canvas,
    other: Canvas,
    first: KeyboardEvent,
    second: KeyboardEvent,
)
    requires
        one.prevent_default == other.prevent_default,
        one.browser_defaults.keyboard == other.browser_defaults.keyboard,
        second == (KeyboardEvent { repeat: second.repeat, ..first }),
    ensures
        key_withheld(one, first) == key_withheld(other, second),
{
}

/// Everything in a report of text input comes from the event, the announcement or the control: the
/// text and the selection from the control, whether it belongs to a composition from the event,
/// whether it could have been canceled from the announcement, and the kind and the data from the
/// event where it has them and otherwise from the announcement.
pub proof fn a_report_of_input_has_its_sources(
    control: ControlState,
    before: BeforeInput,
    event: InputEvent,
)
    ensures
        ({
            let report = text_input_report(control, before, event);
            &&& report.is_composing == event.is_composing
            &&& report.before_input_cancelable == before.cancelable
            &&& event.data is Some ==> report.data == event.data
            &&& event.data is None ==> report.data == before.data
            &&& event.input_type@.len() > 0 ==> report.input_type == event.input_type
            &&& event.input_type@.len() == 0 ==> report.input_type == before.input_type
            &&& report.value == control.value
        }),
{
}

/// The selection in a report of text input is what the control says. Where it says no start, that
/// is the beginning, and where it says no end, that is the start. Only the words "backward" and
/// "forward" give a direction.
pub proof fn a_report_of_input_has_the_selection(
    control: ControlState,
    before: BeforeInput,
    event: InputEvent,
)
    ensures
        ({
            let report = text_input_report(control, before, event);
            &&& control.selection_start matches Ok(Some(start)) ==> report.selection_start == start
            &&& !(control.selection_start matches Ok(Some(_))) ==> report.selection_start == 0
            &&& control.selection_end matches Ok(Some(end)) ==> report.selection_end == end
            &&& !(control.selection_end matches Ok(Some(_))) ==> report.selection_end
                == report.selection_start
            &&& report.selection_direction == WebSelectionDirection::Backward <==> (
            control.selection_direction matches Ok(Some(name)) && name@ == "backward"@)
            &&& report.selection_direction == WebSelectionDirection::Forward <==> (
            control.selection_direction matches Ok(Some(name)) && name@ == "forward"@)
        }),
{
    reveal_strlit("backward");
    reveal_strlit("forward");
    assert("backward"@.len() == 8 && "forward"@.len() == 7);
}

/// The control that counts is the password field exactly where that is active.
pub proof fn the_active_control_counts(ime: ImeElement, controls: Controls)
    ensures
        ime.password_active ==> {
            &&& ime.active_state(controls) == controls.password
            &&& ime.active() == ime.password
            &&& ime.inactive() == ime.textarea
        },
        !ime.password_active ==> {
            &&& ime.active_state(controls) == controls.textarea
            &&& ime.active() == ime.textarea
            &&& ime.inactive() == ime.password
        },
        forall|node: NodeId| #[trigger]
            ime.owns(node) <==> (node == ime.textarea || node == ime.password),
{
}

/// Nothing is announced exactly where there is no kind, no data and nothing to cancel.
pub proof fn a_blank_announcement_says_nothing(before: BeforeInput)
    ensures
        before.is_blank() <==> before.input_type@.len() == 0 && before.data is None
            && !before.cancelable,
{
    assert(before.input_type@.len() == 0 ==> before.input_type@ =~= Seq::<char>::empty());
}

/// The text of a composition is reported as the event has it, or as empty where it has none, with
/// the cursor behind its last byte.
pub proof fn a_preedit_is_the_text_with_the_cursor_at_its_end(
    event: Ime<String>,
    data: Option<String>,
)
    requires
        is_preedit(event, data),
    ensures
        event matches Ime::Preedit(text, Some((start, end))) && {
            &&& data matches Some(d) ==> text@ == d@
            &&& data is None ==> text@.len() == 0
            &&& start == end
            &&& end == encode_utf8(text@).len()
        },
{
}

/// Where a text control loses the focus, the end of input is reported unless the other control
/// gets it, and then the loss of the focus unless the canvas gets it.
pub proof fn a_blur_is_reported_by_where_the_focus_goes(canvas: Canvas, to: Option<NodeId>)
    requires
        canvas.common.raw != canvas.ime_element.textarea,
        canvas.common.raw != canvas.ime_element.password,
    ensures
        ({
            let reports = ime_blur_reports(canvas, to);
            let to_control = to == Some(canvas.ime_element.textarea) || to == Some(
                canvas.ime_element.password,
            );
            &&& to_control ==> reports.len() == 0
            &&& to == Some(canvas.common.raw) ==> reports.len() == 1
            &&& !to_control && to != Some(canvas.common.raw) ==> reports.len() == 2 && reports[1]
                == ImeReport::<Seq<char>>::Focus(false)
            &&& !to_control ==> reports[0] == ImeReport::Ime(Ime::<Seq<char>>::Disabled)
            &&& blur_reported(canvas, to) <==> !to_control
        }),
{
}

/// Where a text control gets the focus, that is reported first, and then the start of input.
pub proof fn a_focus_is_reported_before_input_starts()
    ensures
        ime_focus_reports().len() == 2,
        ime_focus_reports()[0] == ImeReport::<Seq<char>>::Focus(true),
        ime_focus_reports()[1] == ImeReport::Ime(Ime::<Seq<char>>::Enabled),
{
}

/// An event of the clipboard is a request exactly where its target is the canvas or a text
/// control. The request has the action of the event and no answer. It has a text exactly where it
/// is a paste and the clipboard could be read, and the text is what was read.
pub proof fn a_request_is_what_the_user_did(
    canvas: Canvas,
    action: WebClipboardAction,
    target: Option<NodeId>,
    data: Option<Result<String, ReadError>>,
)
    ensures
        ({
            let ours = target == Some(canvas.common.raw) || target == Some(
                canvas.ime_element.textarea,
            ) || target == Some(canvas.ime_element.password);
            &&& ours <==> clipboard_request(canvas, action, target, data) is Some
            &&& clipboard_request(canvas, action, target, data) matches Some(request) ==> {
                &&& request.action == action
                &&& request.response is None
                &&& request.text is Some <==> {
                    &&& action == WebClipboardAction::Paste
                    &&& data matches Some(Ok(_))
                }
                &&& request.text matches Some(text) ==> data == Some(Ok::<String, ReadError>(text))
            }
            &&& clipboard_read(canvas, action, target) <==> ours && action
                == WebClipboardAction::Paste
        }),
{
}

} // verus!
