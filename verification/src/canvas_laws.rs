//! What holds of the operations on a canvas, stated of what they are given.

use vstd::prelude::*;

use crate::answers::answer;
use crate::canvas::{
    after_scale_change, configure, ime_allowed_commands, scale_change_commands,
    text_state_commands, Canvas,
};
use crate::command::{Action, Command, OnFailure};
use crate::common::Common;
use crate::ime::ImeElement;
use crate::input::{WebImeConfiguration, WebSelectionDirection};
use crate::laws::the_active_control_presents_the_configuration;
use crate::listener::{both, single, EventListenerHandle, PointerHandler};
use crate::page::{perform, Page};
use crate::text::{ascii_lowercase, utf16_len};
use crate::types::{NodeId, PhysicalSize};

verus! {

/// The command is the action, and its failure is of no account.
pub open spec fn only(command: Command<Seq<char>>, action: Action<Seq<char>>) -> bool {
    command.action == action && command.on_failure == OnFailure::<Seq<char>>::Ignore
}

/// The element has the attribute with the value, or does not have it where the value is empty.
pub open spec fn carries(page: Page, node: NodeId, name: Seq<char>, value: Seq<char>) -> bool {
    if value.len() == 0 {
        !page.attributes.dom().contains((node, name))
    } else {
        page.attributes.contains_pair((node, name), value)
    }
}

/// The element does not have the attribute.
pub open spec fn lacks(page: Page, node: NodeId, name: Seq<char>) -> bool {
    !page.attributes.dom().contains((node, name))
}

/// The names of the attributes of a configuration are in small letters.
proof fn configuration_names_are_small()
    ensures
        ascii_lowercase("name"@) == "name"@,
        ascii_lowercase("inputmode"@) == "inputmode"@,
        ascii_lowercase("enterkeyhint"@) == "enterkeyhint"@,
        ascii_lowercase("autocomplete"@) == "autocomplete"@,
        ascii_lowercase("autocapitalize"@) == "autocapitalize"@,
        ascii_lowercase("autocorrect"@) == "autocorrect"@,
        ascii_lowercase("spellcheck"@) == "spellcheck"@,
        ascii_lowercase("aria-label"@) == "aria-label"@,
        ascii_lowercase("aria-required"@) == "aria-required"@,
        ascii_lowercase("aria-invalid"@) == "aria-invalid"@,
        ascii_lowercase("aria-description"@) == "aria-description"@,
{
    reveal_strlit("name");
    reveal_strlit("inputmode");
    reveal_strlit("enterkeyhint");
    reveal_strlit("autocomplete");
    reveal_strlit("autocapitalize");
    reveal_strlit("autocorrect");
    reveal_strlit("spellcheck");
    reveal_strlit("aria-label");
    reveal_strlit("aria-required");
    reveal_strlit("aria-invalid");
    reveal_strlit("aria-description");
    assert(ascii_lowercase("name"@) =~= "name"@);
    assert(ascii_lowercase("inputmode"@) =~= "inputmode"@);
    assert(ascii_lowercase("enterkeyhint"@) =~= "enterkeyhint"@);
    assert(ascii_lowercase("autocomplete"@) =~= "autocomplete"@);
    assert(ascii_lowercase("autocapitalize"@) =~= "autocapitalize"@);
    assert(ascii_lowercase("autocorrect"@) =~= "autocorrect"@);
    assert(ascii_lowercase("spellcheck"@) =~= "spellcheck"@);
    assert(ascii_lowercase("aria-label"@) =~= "aria-label"@);
    assert(ascii_lowercase("aria-required"@) =~= "aria-required"@);
    assert(ascii_lowercase("aria-invalid"@) =~= "aria-invalid"@);
    assert(ascii_lowercase("aria-description"@) =~= "aria-description"@);
}

/// After a configuration was given, the control that it asks for carries each attribute as the
/// field of that very attribute says, and the other control carries none of them. The password
/// field is asked for exactly where the input is secret.
pub proof fn each_attribute_has_its_field(
    page: Page,
    ime: ImeElement,
    configuration: WebImeConfiguration,
)
    requires
        ime.textarea != ime.password,
    ensures
        ({
            let after = perform(
                page,
                ime.switch_commands(configuration.secure, page.focus) + configure(
                    ImeElement { password_active: configuration.secure, ..ime },
                    configuration.attributes(),
                ),
            );
            let on = if configuration.secure {
                ime.password
            } else {
                ime.textarea
            };
            let off = if configuration.secure {
                ime.textarea
            } else {
                ime.password
            };
            &&& carries(after, on, "name"@, configuration.name@)
            &&& carries(after, on, "inputmode"@, configuration.input_mode@)
            &&& carries(after, on, "enterkeyhint"@, configuration.enter_key_hint@)
            &&& carries(after, on, "autocomplete"@, configuration.autocomplete@)
            &&& carries(after, on, "autocapitalize"@, configuration.autocapitalize@)
            &&& configuration.autocorrect ==> after.attributes.contains_pair(
                (on, "autocorrect"@),
                "on"@,
            )
            &&& !configuration.autocorrect ==> after.attributes.contains_pair(
                (on, "autocorrect"@),
                "off"@,
            )
            &&& configuration.spellcheck ==> after.attributes.contains_pair(
                (on, "spellcheck"@),
                "true"@,
            )
            &&& !configuration.spellcheck ==> after.attributes.contains_pair(
                (on, "spellcheck"@),
                "false"@,
            )
            &&& carries(after, on, "aria-label"@, configuration.aria_label@)
            &&& configuration.required ==> after.attributes.contains_pair(
                (on, "aria-required"@),
                "true"@,
            )
            &&& !configuration.required ==> after.attributes.contains_pair(
                (on, "aria-required"@),
                "false"@,
            )
            &&& configuration.invalid ==> after.attributes.contains_pair(
                (on, "aria-invalid"@),
                "true"@,
            )
            &&& !configuration.invalid ==> after.attributes.contains_pair(
                (on, "aria-invalid"@),
                "false"@,
            )
            &&& carries(after, on, "aria-description"@, configuration.aria_description@)
            &&& lacks(after, off, "name"@)
            &&& lacks(after, off, "inputmode"@)
            &&& lacks(after, off, "enterkeyhint"@)
            &&& lacks(after, off, "autocomplete"@)
            &&& lacks(after, off, "autocapitalize"@)
            &&& lacks(after, off, "autocorrect"@)
            &&& lacks(after, off, "spellcheck"@)
            &&& lacks(after, off, "aria-label"@)
            &&& lacks(after, off, "aria-required"@)
            &&& lacks(after, off, "aria-invalid"@)
            &&& lacks(after, off, "aria-description"@)
        }),
{
    reveal_strlit("on");
    reveal_strlit("off");
    reveal_strlit("true");
    reveal_strlit("false");
    assert("on"@.len() == 2 && "off"@.len() == 3 && "true"@.len() == 4 && "false"@.len() == 5);
    configuration_names_are_small();
    the_active_control_presents_the_configuration(page, ime, configuration);
    let a = configuration.attributes();
    assert(a[0].0 == "name"@ && a[1].0 == "inputmode"@ && a[2].0 == "enterkeyhint"@);
    assert(a[3].0 == "autocomplete"@ && a[4].0 == "autocapitalize"@ && a[5].0 == "autocorrect"@);
    assert(a[6].0 == "spellcheck"@ && a[7].0 == "aria-label"@ && a[8].0 == "aria-required"@);
    assert(a[9].0 == "aria-invalid"@ && a[10].0 == "aria-description"@);
}

/// A change of the active control empties both controls, and then moves the focus to the one that
/// becomes active exactly where one of them has it. Where nothing changes, nothing is done.
pub proof fn a_switch_of_controls_takes_the_texts_and_the_focus(
    ime: ImeElement,
    active: bool,
    focused: Option<NodeId>,
)
    ensures
        ({
            let commands = ime.switch_commands(active, focused);
            let inside = focused == Some(ime.textarea) || focused == Some(ime.password);
            let to = if active {
                ime.password
            } else {
                ime.textarea
            };
            &&& ime.password_active == active ==> commands.len() == 0
            &&& ime.password_active != active ==> {
                &&& commands.len() == if inside {
                    3nat
                } else {
                    2nat
                }
                &&& only(commands[0], Action::SetValue { node: ime.textarea, value: Seq::empty() })
                &&& only(commands[1], Action::SetValue { node: ime.password, value: Seq::empty() })
                &&& inside ==> only(commands[2], Action::Focus { node: to })
            }
        }),
{
    reveal_strlit("");
    assert(""@ =~= Seq::<char>::empty());
}

/// A text goes to the active control and takes the text of the other; an attribute goes to the
/// active control and is taken from the other; what is removed is taken from both. The active
/// control is the password field exactly where that is active.
pub proof fn what_is_written_goes_to_the_active_control(
    ime: ImeElement,
    name: Seq<char>,
    value: Seq<char>,
)
    ensures
        ({
            let on = if ime.password_active {
                ime.password
            } else {
                ime.textarea
            };
            let off = if ime.password_active {
                ime.textarea
            } else {
                ime.password
            };
            &&& ime.value_commands(value).len() == 2
            &&& only(ime.value_commands(value)[0], Action::SetValue { node: on, value })
            &&& only(
                ime.value_commands(value)[1],
                Action::SetValue { node: off, value: Seq::empty() },
            )
            &&& ime.attribute_commands(name, value).len() == 2
            &&& only(
                ime.attribute_commands(name, value)[0],
                Action::SetAttribute { node: on, name, value },
            )
            &&& only(
                ime.attribute_commands(name, value)[1],
                Action::RemoveAttribute { node: off, name },
            )
            &&& ime.removal_commands(name).len() == 2
            &&& only(
                ime.removal_commands(name)[0],
                Action::RemoveAttribute { node: ime.textarea, name },
            )
            &&& only(
                ime.removal_commands(name)[1],
                Action::RemoveAttribute { node: ime.password, name },
            )
            &&& ime.remove_commands().len() == 2
            &&& only(ime.remove_commands()[0], Action::RemoveNode { node: ime.textarea })
            &&& only(ime.remove_commands()[1], Action::RemoveNode { node: ime.password })
        }),
{
    reveal_strlit("");
    assert(""@ =~= Seq::<char>::empty());
}

/// A text state ends with the selection that is asked for, each end as far as the text goes. It
/// writes the text before that exactly where the control holds another one.
pub proof fn a_text_state_writes_what_differs_and_selects(
    ime: ImeElement,
    current: Seq<char>,
    value: Seq<char>,
    start: u32,
    end: u32,
    direction: WebSelectionDirection,
)
    ensures
        ({
            let commands = text_state_commands(ime, current, value, start, end, direction);
            let on = if ime.password_active {
                ime.password
            } else {
                ime.textarea
            };
            let off = if ime.password_active {
                ime.textarea
            } else {
                ime.password
            };
            &&& current == value ==> commands.len() == 1
            &&& current != value ==> {
                &&& commands.len() == 3
                &&& only(commands[0], Action::SetValue { node: on, value })
                &&& only(commands[1], Action::SetValue { node: off, value: Seq::empty() })
            }
            &&& commands.last().on_failure == OnFailure::<Seq<char>>::Ignore
            &&& commands.last().action matches Action::SetSelectionRange {
                node,
                start: from,
                end: to,
                direction: word,
            } && {
                &&& node == on
                &&& start <= utf16_len(value) ==> from == start
                &&& start > utf16_len(value) ==> from == utf16_len(value)
                &&& end <= utf16_len(value) ==> to == end
                &&& end > utf16_len(value) ==> to == utf16_len(value)
                &&& direction == WebSelectionDirection::Backward ==> word == "backward"@
                &&& direction == WebSelectionDirection::Forward ==> word == "forward"@
                &&& direction == WebSelectionDirection::Undirected ==> word == "none"@
            }
        }),
{
    reveal_strlit("");
    assert(""@ =~= Seq::<char>::empty());
}

/// To allow the text controls asks the active one to take the focus, and to forbid them asks the
/// canvas to take it; nothing is asked where it was so before.
pub proof fn the_focus_is_asked_for_on_a_change(canvas: Canvas, allowed: bool)
    ensures
        ime_allowed_commands(canvas, allowed) is Some <==> canvas.ime_allowed != allowed,
        ime_allowed_commands(canvas, allowed) matches Some(command) ==> {
            &&& allowed && canvas.ime_element.password_active ==> only(
                command,
                Action::Focus { node: canvas.ime_element.password },
            )
            &&& allowed && !canvas.ime_element.password_active ==> only(
                command,
                Action::Focus { node: canvas.ime_element.textarea },
            )
            &&& !allowed ==> only(command, Action::Focus { node: canvas.common.raw })
        },
{
}

/// A canvas that is to have another size than it has is resized to exactly that size, in width and
/// height, before its observer is notified. A canvas that keeps its size has exactly that size
/// reported, under the identity of its window, where it was not reported last.
pub proof fn a_canvas_gets_the_size_that_was_asked_for(
    canvas: Canvas,
    current_size: PhysicalSize,
    new_size: PhysicalSize,
)
    ensures
        ({
            let commands = scale_change_commands(canvas, current_size, new_size);
            let differs = current_size.width != new_size.width || current_size.height
                != new_size.height;
            let reported = canvas.common.old_size.width == new_size.width
                && canvas.common.old_size.height == new_size.height;
            &&& differs ==> {
                &&& commands.len() == 2
                &&& commands[0].on_failure == OnFailure::<Seq<char>>::Ignore
                &&& commands[0].action matches Action::Resize { node, size } && node
                    == canvas.common.raw && size.width == new_size.width && size.height
                    == new_size.height
                &&& commands[1].action == Action::<Seq<char>>::NotifyResize {
                    observed: canvas.on_resize_scale is Some,
                }
                &&& commands[1].on_failure == OnFailure::Panic(
                    "expected Window to still be active"@,
                )
            }
            &&& !differs && !reported ==> {
                &&& commands.len() == 1
                &&& commands[0].on_failure == OnFailure::<Seq<char>>::Ignore
                &&& commands[0].action matches Action::SendResized { id, size } && id == canvas.id
                    && size.width == new_size.width && size.height == new_size.height
            }
            &&& !differs && reported ==> commands.len() == 0
        }),
{
}

/// A change of scale to the size that the canvas has makes that the size that was reported last. A
/// change to another size, which is yet to be reported, changes nothing of the canvas.
pub proof fn a_kept_size_counts_as_reported(
    canvas: Canvas,
    current_size: PhysicalSize,
    new_size: PhysicalSize,
)
    ensures
        ({
            let after = after_scale_change(canvas, current_size, new_size);
            &&& current_size != new_size ==> after == canvas
            &&& current_size == new_size ==> {
                &&& after.common.old_size.width == new_size.width
                &&& after.common.old_size.height == new_size.height
                &&& after == (Canvas {
                    common: Common { old_size: after.common.old_size, ..canvas.common },
                    ..canvas
                })
            }
        }),
{
}

/// A listener on a text control comes with one on the other, for the same event, and a place holds
/// one listener or none.
pub proof fn places_hold_what_they_are_for(
    ime: ImeElement,
    event: &'static str,
    place: Option<EventListenerHandle>,
)
    ensures
        both(ime, event).len() == 2,
        both(ime, event)[0] == (EventListenerHandle { target: ime.textarea, event }),
        both(ime, event)[1] == (EventListenerHandle { target: ime.password, event }),
        place is None ==> single(place).len() == 0,
        place matches Some(listener) ==> single(place).len() == 1 && single(place)[0] == listener,
{
}

/// No pointer event is listened to by a handler that listens to none.
pub proof fn no_pointer_is_listened_to()
    ensures
        ({
            let none = PointerHandler::none();
            &&& !none.on_cursor_leave && !none.on_cursor_enter && !none.on_cursor_move
            &&& !none.on_pointer_press && !none.on_pointer_release && !none.on_touch_cancel
        }),
{
}

/// The number of listeners that a place holds.
pub open spec fn count(place: Option<EventListenerHandle>) -> nat {
    if place is Some {
        1
    } else {
        0
    }
}

proof fn what_a_part_has(
    first: Seq<EventListenerHandle>,
    second: Seq<EventListenerHandle>,
    listener: EventListenerHandle,
)
    ensures
        (first + second).contains(listener) <==> first.contains(listener) || second.contains(
            listener,
        ),
{
    if first.contains(listener) {
        let i = choose|i: int| 0 <= i < first.len() && first[i] == listener;
        assert((first + second)[i] == listener);
    }
    if second.contains(listener) {
        let i = choose|i: int| 0 <= i < second.len() && second[i] == listener;
        assert((first + second)[first.len() + i] == listener);
    }
    if (first + second).contains(listener) {
        let i = choose|i: int|
            0 <= i < (first + second).len() && (first + second)[i] == listener;
        if i < first.len() {
            assert(first[i] == listener);
        } else {
            assert(second[i - first.len()] == listener);
        }
    }
}

/// A listener is one of a place.
pub open spec fn held(place: Option<EventListenerHandle>, listener: EventListenerHandle) -> bool {
    place == Some(listener)
}

/// A listener is among those of a canvas exactly where one of the places of the canvas holds it.
pub proof fn a_listener_is_one_of_the_places(canvas: Canvas, listener: EventListenerHandle)
    ensures
        canvas.listeners().contains(listener) <==> {
            ||| held(canvas.on_touch_start, listener)
            ||| held(canvas.on_focus, listener)
            ||| held(canvas.on_blur, listener)
            ||| held(canvas.on_keyboard_release, listener)
            ||| held(canvas.on_keyboard_press, listener)
            ||| canvas.on_ime_keyboard_release@.contains(listener)
            ||| canvas.on_ime_keyboard_press@.contains(listener)
            ||| held(canvas.on_mouse_wheel, listener)
            ||| held(canvas.on_touch_end, listener)
            ||| held(canvas.on_context_menu, listener)
            ||| held(canvas.on_copy, listener)
            ||| held(canvas.on_cut, listener)
            ||| held(canvas.on_paste, listener)
            ||| canvas.on_ime_focus@.contains(listener)
            ||| canvas.on_ime_blur@.contains(listener)
            ||| canvas.on_composition_start@.contains(listener)
            ||| canvas.on_composition_update@.contains(listener)
            ||| canvas.on_composition_end@.contains(listener)
            ||| canvas.on_before_input@.contains(listener)
            ||| canvas.on_text_input@.contains(listener)
        },
        canvas.listeners().len() == count(canvas.on_touch_start) + count(canvas.on_focus) + count(
            canvas.on_blur,
        ) + count(canvas.on_keyboard_release) + count(canvas.on_keyboard_press)
            + canvas.on_ime_keyboard_release@.len() + canvas.on_ime_keyboard_press@.len() + count(
            canvas.on_mouse_wheel,
        ) + count(canvas.on_touch_end) + count(canvas.on_context_menu) + count(canvas.on_copy)
            + count(canvas.on_cut) + count(canvas.on_paste) + canvas.on_ime_focus@.len()
            + canvas.on_ime_blur@.len() + canvas.on_composition_start@.len()
            + canvas.on_composition_update@.len() + canvas.on_composition_end@.len()
            + canvas.on_before_input@.len() + canvas.on_text_input@.len(),
{
    let c = canvas;
    let l = single(c.on_touch_start);
    single_has(c.on_touch_start, listener);
    single_has(c.on_focus, listener);
    what_a_part_has(l, single(c.on_focus), listener);
    let l = l + single(c.on_focus);
    single_has(c.on_blur, listener);
    what_a_part_has(l, single(c.on_blur), listener);
    let l = l + single(c.on_blur);
    single_has(c.on_keyboard_release, listener);
    what_a_part_has(l, single(c.on_keyboard_release), listener);
    let l = l + single(c.on_keyboard_release);
    single_has(c.on_keyboard_press, listener);
    what_a_part_has(l, single(c.on_keyboard_press), listener);
    let l = l + single(c.on_keyboard_press);
    what_a_part_has(l, c.on_ime_keyboard_release@, listener);
    let l = l + c.on_ime_keyboard_release@;
    what_a_part_has(l, c.on_ime_keyboard_press@, listener);
    let l = l + c.on_ime_keyboard_press@;
    single_has(c.on_mouse_wheel, listener);
    what_a_part_has(l, single(c.on_mouse_wheel), listener);
    let l = l + single(c.on_mouse_wheel);
    single_has(c.on_touch_end, listener);
    what_a_part_has(l, single(c.on_touch_end), listener);
    let l = l + single(c.on_touch_end);
    single_has(c.on_context_menu, listener);
    what_a_part_has(l, single(c.on_context_menu), listener);
    let l = l + single(c.on_context_menu);
    single_has(c.on_copy, listener);
    what_a_part_has(l, single(c.on_copy), listener);
    let l = l + single(c.on_copy);
    single_has(c.on_cut, listener);
    what_a_part_has(l, single(c.on_cut), listener);
    let l = l + single(c.on_cut);
    single_has(c.on_paste, listener);
    what_a_part_has(l, single(c.on_paste), listener);
    let l = l + single(c.on_paste);
    what_a_part_has(l, c.on_ime_focus@, listener);
    let l = l + c.on_ime_focus@;
    what_a_part_has(l, c.on_ime_blur@, listener);
    let l = l + c.on_ime_blur@;
    what_a_part_has(l, c.on_composition_start@, listener);
    let l = l + c.on_composition_start@;
    what_a_part_has(l, c.on_composition_update@, listener);
    let l = l + c.on_composition_update@;
    what_a_part_has(l, c.on_composition_end@, listener);
    let l = l + c.on_composition_end@;
    what_a_part_has(l, c.on_before_input@, listener);
    let l = l + c.on_before_input@;
    what_a_part_has(l, c.on_text_input@, listener);
}

proof fn single_has(place: Option<EventListenerHandle>, listener: EventListenerHandle)
    ensures
        single(place).contains(listener) <==> held(place, listener),
        single(place).len() == count(place),
{
    if let Some(one) = place {
        assert(single(place)[0] == one);
    }
}

/// An event that no operation listens to has no answer, and no target but the canvas, the document
/// and the text controls has one.
pub proof fn nothing_else_is_answered(canvas: Canvas, listener: EventListenerHandle)
    requires
        answer(canvas, listener) is Some,
    ensures
        ({
            let e = listener.event@;
            let on_canvas = listener.target == canvas.common.raw && (e == "touchstart"@ || e
                == "focus"@ || e == "blur"@ || e == "keyup"@ || e == "keydown"@ || e == "wheel"@
                || e == "contextmenu"@);
            let on_document = listener.target == canvas.common.document && (e == "copy"@ || e
                == "cut"@ || e == "paste"@);
            let on_control = (listener.target == canvas.ime_element.textarea || listener.target
                == canvas.ime_element.password) && (e == "keyup"@ || e == "keydown"@ || e
                == "focus"@ || e == "blur"@ || e == "compositionstart"@ || e
                == "compositionupdate"@ || e == "compositionend"@ || e == "beforeinput"@ || e
                == "input"@);
            on_canvas || on_document || on_control
        }),
{
}

} // verus!
