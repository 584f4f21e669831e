//! What holds of the canvas as a whole.

use vstd::prelude::*;

use crate::canvas::{
    after_scale_change, at_most, configure, configure_one, ime_allowed_commands,
    scale_change_commands, text_state_commands, Canvas,
};
use crate::clipboard::WebClipboardAction;
use crate::command::{attempt, run, verdict, Action, Command, Failure};
use crate::defaults::{withheld, BrowserDefault};
use crate::events::{
    blur_reported, clipboard_read, clipboard_request, concerns, ime_blur_reports, key_withheld,
    text_input_report,
};
use crate::ime::{found, ControlState, ImeElement};
use crate::input::{
    direction_name, direction_of, text_of, Attribute, BeforeInput, Ime, ImeReport, InputEvent,
    WebImeConfiguration, WebSelectionDirection,
};
use crate::keyboard::{clipboard_accelerator, clipboard_shortcut, KeyboardEvent};
use crate::page::{
    nothing_is_kept_of_nothing, perform, perform_concat, perform_one, perform_two, Page,
};
use crate::text::{ascii_lower, ascii_lowercase, utf16_len, utf16_len_u32};
use crate::types::{NodeId, PhysicalSize, ReadError};

verus! {

/// A text that is written goes into the active control, as far as the control keeps it, and the
/// other control holds none.
pub proof fn only_the_active_control_holds_text(page: Page, ime: ImeElement, value: Seq<char>)
    requires
        ime.textarea != ime.password,
    ensures
        ({
            let after = perform(page, ime.value_commands(value));
            &&& after == (Page {
                values: page.values.insert(ime.active(), page.kept(ime.active(), value)).insert(
                    ime.inactive(),
                    Seq::empty(),
                ),
                selections: page.selections.remove(ime.active()).remove(ime.inactive()),
                ..page
            })
            &&& after.values[ime.active()] == page.kept(ime.active(), value)
            &&& after.values[ime.inactive()].len() == 0
        }),
{
    reveal_strlit("");
    assert(""@ =~= Seq::<char>::empty());
    nothing_is_kept_of_nothing(
        Page {
            values: page.values.insert(ime.active(), page.kept(ime.active(), value)),
            selections: page.selections.remove(ime.active()),
            ..page
        },
        ime.inactive(),
    );
    perform_two(
        page,
        attempt(Action::SetValue { node: ime.active(), value }),
        attempt(Action::SetValue { node: ime.inactive(), value: ""@ }),
    );
}

/// A change between plain and secret input leaves no text behind. Where the controls have the
/// focus, it moves along to the active one, if that takes it. Where nothing changes, the page
/// stays as it is.
pub proof fn a_switch_leaves_no_text_behind(page: Page, ime: ImeElement, active: bool)
    requires
        ime.textarea != ime.password,
    ensures
        ({
            let switched = ImeElement { password_active: active, ..ime };
            let after = perform(page, ime.switch_commands(active, page.focus));
            &&& ime.password_active == active ==> after == page
            &&& ime.password_active != active ==> {
                &&& after.values[ime.textarea].len() == 0
                &&& after.values[ime.password].len() == 0
                &&& after.focus == if (page.focus matches Some(node) && ime.owns(node))
                    && page.takes_focus(switched.active()) {
                    Some(switched.active())
                } else {
                    page.focus
                }
                &&& after.attributes == page.attributes
                &&& after.properties == page.properties
                &&& after.attached == page.attached
            }
        }),
{
    reveal_strlit("");
    assert(""@ =~= Seq::<char>::empty());
    if ime.password_active != active {
        nothing_is_kept_of_nothing(page, ime.textarea);
        nothing_is_kept_of_nothing(page, ime.password);
        let switched = ImeElement { password_active: active, ..ime };
        let first = attempt(Action::SetValue { node: ime.textarea, value: ""@ });
        let second = attempt(Action::SetValue { node: ime.password, value: ""@ });
        let third = attempt(Action::Focus { node: switched.active() });
        perform_two(page, first, second);
        if page.focus matches Some(node) && ime.owns(node) {
            assert(ime.switch_commands(active, page.focus) =~= seq![first, second] + seq![third]);
            perform_concat(page, seq![first, second], seq![third]);
            perform_one(perform(page, seq![first, second]), third);
        }
    }
}

/// An attribute that is set is on the active control alone.
pub proof fn only_the_active_control_has_an_attribute(
    page: Page,
    ime: ImeElement,
    name: Seq<char>,
    value: Seq<char>,
)
    requires
        ime.textarea != ime.password,
    ensures
        ({
            let after = perform(page, ime.attribute_commands(name, value));
            &&& after == (Page {
                attributes: page.attributes.insert(
                    (ime.active(), ascii_lowercase(name)),
                    value,
                ).remove((ime.inactive(), ascii_lowercase(name))),
                ..page
            })
            &&& after.attributes.contains_pair((ime.active(), ascii_lowercase(name)), value)
            &&& !after.attributes.dom().contains((ime.inactive(), ascii_lowercase(name)))
        }),
{
    perform_two(
        page,
        attempt(Action::SetAttribute { node: ime.active(), name, value }),
        attempt(Action::RemoveAttribute { node: ime.inactive(), name }),
    );
}

/// An attribute that is removed is on neither control.
pub proof fn no_control_has_a_removed_attribute(page: Page, ime: ImeElement, name: Seq<char>)
    ensures
        ({
            let after = perform(page, ime.removal_commands(name));
            &&& after == (Page {
                attributes: page.attributes.remove((ime.textarea, ascii_lowercase(name))).remove(
                    (ime.password, ascii_lowercase(name)),
                ),
                ..page
            })
            &&& !after.attributes.dom().contains((ime.textarea, ascii_lowercase(name)))
            &&& !after.attributes.dom().contains((ime.password, ascii_lowercase(name)))
        }),
{
    perform_two(
        page,
        attempt(Action::RemoveAttribute { node: ime.textarea, name }),
        attempt(Action::RemoveAttribute { node: ime.password, name }),
    );
}

/// The controls present an attribute: the active one has it with its value, or none has it where
/// the value is empty.
pub open spec fn presents(page: Page, ime: ImeElement, attribute: Attribute) -> bool {
    let name = ascii_lowercase(attribute.0);
    &&& !page.attributes.dom().contains((ime.inactive(), name))
    &&& if attribute.1.len() == 0 {
        !page.attributes.dom().contains((ime.active(), name))
    } else {
        page.attributes.contains_pair((ime.active(), name), attribute.1)
    }
}

/// Two pages agree on an attribute of a node.
pub open spec fn agree(one: Page, other: Page, node: NodeId, name: Seq<char>) -> bool {
    &&& one.attributes.dom().contains((node, name)) == other.attributes.dom().contains((node, name))
    &&& one.attributes.dom().contains((node, name)) ==> one.attributes[(node, name)]
        == other.attributes[(node, name)]
}

/// Each name occurs in a list of attributes once, in capital or small letters.
pub open spec fn distinct_names(attributes: Seq<Attribute>) -> bool {
    forall|i: int, j: int|
        0 <= i < j < attributes.len() ==> ascii_lowercase((#[trigger] attributes[i]).0)
            != ascii_lowercase((#[trigger] attributes[j]).0)
}

/// The name in small letters occurs in a list of attributes, in capital or small letters.
pub open spec fn named(attributes: Seq<Attribute>, name: Seq<char>) -> bool {
    exists|i: int|
        0 <= i < attributes.len() && ascii_lowercase((#[trigger] attributes[i]).0) == name
}

/// After a list of attributes with different names the controls present each of them, and
/// everything else is as before.
pub proof fn configured_attributes_are_presented(
    page: Page,
    ime: ImeElement,
    attributes: Seq<Attribute>,
)
    requires
        ime.textarea != ime.password,
        distinct_names(attributes),
    ensures
        ({
            let after = perform(page, configure(ime, attributes));
            &&& forall|i: int|
                0 <= i < attributes.len() ==> presents(after, ime, #[trigger] attributes[i])
            &&& forall|node: NodeId, name: Seq<char>|
                !(ime.owns(node) && named(attributes, name)) ==> #[trigger] agree(
                    page,
                    after,
                    node,
                    name,
                )
            &&& after == (Page { attributes: after.attributes, ..page })
        }),
    decreases attributes.len(),
{
    if attributes.len() > 0 {
        let front = attributes.drop_last();
        let last = attributes.last();
        let middle = perform(page, configure(ime, front));
        let after = perform(page, configure(ime, attributes));
        assert(distinct_names(front)) by {
            assert forall|i: int, j: int| 0 <= i < j < front.len() implies ascii_lowercase(
                (#[trigger] front[i]).0,
            ) != ascii_lowercase((#[trigger] front[j]).0) by {
                assert(ascii_lowercase(attributes[i].0) != ascii_lowercase(attributes[j].0));
            }
        }
        configured_attributes_are_presented(page, ime, front);
        perform_concat(page, configure(ime, front), configure_one(ime, last));
        if last.1.len() == 0 {
            no_control_has_a_removed_attribute(middle, ime, last.0);
        } else {
            only_the_active_control_has_an_attribute(middle, ime, last.0, last.1);
        }
        assert forall|i: int| 0 <= i < attributes.len() implies presents(
            after,
            ime,
            #[trigger] attributes[i],
        ) by {
            if i < front.len() {
                assert(front[i] == attributes[i]);
                assert(presents(middle, ime, front[i]));
                assert(ascii_lowercase(attributes[i].0) != ascii_lowercase(
                    attributes[attributes.len() - 1].0,
                ));
            }
        }
        assert forall|node: NodeId, name: Seq<char>|
            !(ime.owns(node) && named(attributes, name)) implies #[trigger] agree(
            page,
            after,
            node,
            name,
        ) by {
            if named(front, name) {
                let i = choose|i: int|
                    0 <= i < front.len() && ascii_lowercase((#[trigger] front[i]).0) == name;
                assert(ascii_lowercase(attributes[i].0) == name);
            }
            if ascii_lowercase(last.0) == name {
                assert(ascii_lowercase(attributes[attributes.len() - 1].0) == name);
            }
            assert(agree(page, middle, node, name));
        }
    }
}

/// The attributes of a configuration have different names.
pub proof fn configuration_names_are_distinct(configuration: WebImeConfiguration)
    ensures
        distinct_names(configuration.attributes()),
{
    reveal_strlit("name");
    reveal_strlit("inputmode");
    reveal_strlit("enterkeyhint");
    reveal_strlit("autocomplete");
    reveal_strlit("autocapitalize");
    reveal_strlit("autocorrect");
    reveal_strlit("spellcheck");
    reveal_strlit("aria-label");
    reveal_strlit("aria-required");
    reveal_strlit("aria-invalid");
    reveal_strlit("aria-description");
    let a = configuration.attributes();
    assert forall|i: int| 0 <= i < a.len() implies ascii_lowercase((#[trigger] a[i]).0).len()
        == a[i].0.len() by {}
    assert(a[0].0.len() == 4 && a[1].0.len() == 9 && a[2].0.len() == 12 && a[3].0.len() == 12
        && a[4].0.len() == 14 && a[5].0.len() == 11 && a[6].0.len() == 10 && a[7].0.len() == 10
        && a[8].0.len() == 13 && a[9].0.len() == 12 && a[10].0.len() == 16);
    assert(ascii_lowercase(a[2].0)[0] == 'e' && ascii_lowercase(a[3].0)[0] == 'a'
        && ascii_lowercase(a[9].0)[0] == 'a');
    assert(ascii_lowercase(a[3].0)[1] == 'u' && ascii_lowercase(a[9].0)[1] == 'r');
    assert(ascii_lowercase(a[6].0)[0] == 's' && ascii_lowercase(a[7].0)[0] == 'a');
}

/// After a configuration was given, the active control presents what it says and the other
/// control presents nothing of it. Nothing else in the page has changed but for what a switch of
/// the controls changes.
pub proof fn the_active_control_presents_the_configuration(
    page: Page,
    ime: ImeElement,
    configuration: WebImeConfiguration,
)
    requires
        ime.textarea != ime.password,
    ensures
        ({
            let switched = ImeElement { password_active: configuration.secure, ..ime };
            let middle = perform(page, ime.switch_commands(configuration.secure, page.focus));
            let after = perform(
                page,
                ime.switch_commands(configuration.secure, page.focus) + configure(
                    switched,
                    configuration.attributes(),
                ),
            );
            &&& forall|i: int|
                0 <= i < configuration.attributes().len() ==> presents(
                    after,
                    switched,
                    #[trigger] configuration.attributes()[i],
                )
            &&& forall|node: NodeId, name: Seq<char>|
                !(ime.owns(node) && named(configuration.attributes(), name)) ==> #[trigger] agree(
                    page,
                    after,
                    node,
                    name,
                )
            &&& after == (Page { attributes: after.attributes, ..middle })
        }),
{
    let switched = ImeElement { password_active: configuration.secure, ..ime };
    let commands = ime.switch_commands(configuration.secure, page.focus);
    let middle = perform(page, commands);
    let after = perform(page, commands + configure(switched, configuration.attributes()));
    a_switch_leaves_no_text_behind(page, ime, configuration.secure);
    configuration_names_are_distinct(configuration);
    configured_attributes_are_presented(middle, switched, configuration.attributes());
    perform_concat(page, commands, configure(switched, configuration.attributes()));
    assert forall|node: NodeId, name: Seq<char>|
        !(ime.owns(node) && named(configuration.attributes(), name)) implies #[trigger] agree(
        page,
        after,
        node,
        name,
    ) by {
        assert(agree(middle, after, node, name));
    }
}

/// What a control holds once a text is asked for: the text where it is there, and otherwise as
/// much of it as the control keeps.
pub open spec fn held(page: Page, node: NodeId, value: Seq<char>) -> Seq<char> {
    if page.values[node] == value {
        value
    } else {
        page.kept(node, value)
    }
}

/// The text that is asked for is in the active control afterwards, as far as the control keeps it
/// and whatever was there before. What is asked for is selected as far as the text goes; a
/// selection that would start behind its end is empty and stands at its end. Where the text was
/// there before, only the selection changes.
pub proof fn the_active_control_holds_the_text_state(
    page: Page,
    ime: ImeElement,
    value: Seq<char>,
    start: u32,
    end: u32,
    direction: WebSelectionDirection,
)
    requires
        ime.textarea != ime.password,
        page.values.dom().contains(ime.active()),
    ensures
        ({
            let current = page.values[ime.active()];
            let text = held(page, ime.active(), value);
            let after = perform(
                page,
                text_state_commands(ime, current, value, start, end, direction),
            );
            let limit = at_most(utf16_len_u32(value), utf16_len_u32(text));
            let to = at_most(end, limit);
            let from = at_most(start, to);
            &&& after.values.contains_pair(ime.active(), text)
            &&& after.selections.contains_pair(
                ime.active(),
                (from, to, page.directed(direction_name(direction))),
            )
            &&& from <= to <= utf16_len(text)
            &&& current != value ==> after.values[ime.inactive()].len() == 0
            &&& current == value ==> after == (Page { selections: after.selections, ..page })
        }),
{
    let current = page.values[ime.active()];
    let commands = text_state_commands(ime, current, value, start, end, direction);
    let written = commands.drop_last();
    if current == value {
        assert(written =~= Seq::empty());
        assert(perform(page, written) == page);
    } else {
        assert(written =~= ime.value_commands(value));
        only_the_active_control_holds_text(page, ime, value);
    }
}

/// Where the control holds the text, a text state takes one command, which selects.
pub proof fn a_text_state_is_given_once(
    ime: ImeElement,
    value: Seq<char>,
    start: u32,
    end: u32,
    direction: WebSelectionDirection,
)
    ensures
        text_state_commands(ime, value, value, start, end, direction).len() == 1,
{
}

/// To allow the text controls, or to forbid them, moves the focus the first time only; it goes to
/// the active control, or back to the canvas, if that takes it.
pub proof fn the_focus_follows_what_is_allowed(page: Page, canvas: Canvas, allowed: bool)
    ensures
        ime_allowed_commands(Canvas { ime_allowed: allowed, ..canvas }, allowed) is None,
        ime_allowed_commands(canvas, allowed) matches Some(command) ==> {
            let node = if allowed {
                canvas.ime_element.active()
            } else {
                canvas.common.raw
            };
            perform(page, seq![command]) == (Page {
                focus: if page.takes_focus(node) {
                    Some(node)
                } else {
                    page.focus
                },
                ..page
            })
        },
        ime_allowed_commands(canvas, allowed) is None <==> canvas.ime_allowed == allowed,
{
    if let Some(command) = ime_allowed_commands(canvas, allowed) {
        perform_one(page, command);
    }
}

/// While the focus moves between the canvas and the text controls, no loss of the focus is
/// reported; where it leaves all of them, one loss is reported, whoever had it.
pub proof fn the_window_has_the_focus_of_its_parts(canvas: Canvas, to: Option<NodeId>)
    ensures
        ({
            let lost = ImeReport::<Seq<char>>::Focus(false);
            let inside = to matches Some(node) && canvas.ime_element.owns(node);
            // From the canvas.
            &&& inside ==> !blur_reported(canvas, to)
            &&& !inside ==> blur_reported(canvas, to)
            // From a text control.
            &&& concerns(canvas, to) ==> !ime_blur_reports(canvas, to).contains(lost)
            &&& !concerns(canvas, to) ==> ime_blur_reports(canvas, to).last() == lost
                && ime_blur_reports(canvas, to).len() == 2
            // A composition is over exactly where no text control has the focus any more.
            &&& ime_blur_reports(canvas, to).contains(ImeReport::Ime(Ime::Disabled)) <==> !inside
        }),
{
    let seq = ime_blur_reports(canvas, to);
    if seq.len() > 0 {
        assert(seq[0] == ImeReport::Ime(Ime::<Seq<char>>::Disabled));
    }
}

/// A kind of event that is left to the browser is never withheld, and none is while the browser
/// is not kept from anything.
pub proof fn nothing_is_withheld_against_the_settings(canvas: Canvas, kind: BrowserDefault)
    ensures
        canvas.browser_defaults.has(kind) ==> !withheld(
            canvas.prevent_default,
            canvas.browser_defaults,
            kind,
        ),
        !canvas.prevent_default ==> !withheld(
            canvas.prevent_default,
            canvas.browser_defaults,
            kind,
        ),
{
}

/// The browser gets every key of a composition and every chord of the clipboard, whatever the
/// settings are.
pub proof fn the_browser_gets_clipboard_chords(canvas: Canvas, event: KeyboardEvent)
    ensures
        event.is_composing ==> !key_withheld(canvas, event),
        clipboard_shortcut(event) ==> !key_withheld(canvas, event),
        canvas.browser_defaults.keyboard ==> !key_withheld(canvas, event),
        canvas.prevent_default && !canvas.browser_defaults.keyboard && !event.is_composing
            && !clipboard_shortcut(event) ==> key_withheld(canvas, event),
{
}

/// Keys that differ in the case of ASCII letters alone make the same chords.
pub proof fn accelerators_ignore_case(
    one: Seq<char>,
    other: Seq<char>,
    ctrl: bool,
    meta: bool,
    shift: bool,
    alt: bool,
)
    requires
        ascii_lowercase(one) == ascii_lowercase(other),
    ensures
        clipboard_accelerator(one, ctrl, meta, shift, alt) == clipboard_accelerator(
            other,
            ctrl,
            meta,
            shift,
            alt,
        ),
{
}

/// A chord needs a modifier, and Alt makes it none.
pub proof fn accelerators_need_a_modifier(key: Seq<char>, ctrl: bool, meta: bool, shift: bool)
    ensures
        !clipboard_accelerator(key, ctrl, meta, shift, true),
        !clipboard_accelerator(key, false, false, false, false),
{
}

/// The letters of the clipboard go with Ctrl as with the Meta key.
pub proof fn ctrl_and_meta_are_alike_for_letters(key: Seq<char>, shift: bool)
    requires
        key.len() == 1,
    ensures
        clipboard_accelerator(key, true, false, shift, false) == clipboard_accelerator(
            key,
            false,
            true,
            shift,
            false,
        ),
        clipboard_accelerator(key, true, false, shift, false) <==> (ascii_lower(key[0]) == 'c'
            || ascii_lower(key[0]) == 'x' || ascii_lower(key[0]) == 'v'),
{
    reveal_strlit("c");
    reveal_strlit("x");
    reveal_strlit("v");
    reveal_strlit("insert");
    reveal_strlit("delete");
    let lower = ascii_lowercase(key);
    assert("insert"@.len() == 6 && "delete"@.len() == 6);
    assert(lower.len() == 1 && lower[0] == ascii_lower(key[0]));
    assert(lower == "c"@ <==> lower[0] == 'c') by {
        if lower[0] == 'c' {
            assert(lower =~= "c"@);
        }
    }
    assert(lower == "x"@ <==> lower[0] == 'x') by {
        if lower[0] == 'x' {
            assert(lower =~= "x"@);
        }
    }
    assert(lower == "v"@ <==> lower[0] == 'v') by {
        if lower[0] == 'v' {
            assert(lower =~= "v"@);
        }
    }
}

/// An announcement of text input counts for one input. What follows without an announcement of
/// its own is reported as the event alone says.
pub proof fn an_announcement_counts_once(
    control: ControlState,
    before: BeforeInput,
    event: InputEvent,
)
    requires
        before.is_blank(),
    ensures
        ({
            let report = text_input_report(control, before, event);
            &&& report.input_type@ == event.input_type@
            &&& report.data == event.data
            &&& !report.before_input_cancelable
        }),
{
    if event.input_type@.len() == 0 {
        assert(event.input_type@ =~= before.input_type@);
    }
}

/// The word for a direction names that direction.
pub proof fn a_direction_reads_back(direction: WebSelectionDirection)
    ensures
        direction_of(Some(direction_name(direction))) == direction,
{
    reveal_strlit("backward");
    reveal_strlit("forward");
    reveal_strlit("none");
    assert("backward"@.len() == 8 && "forward"@.len() == 7 && "none"@.len() == 4);
}

/// A read of a text control gives what the page holds.
pub open spec fn shows(page: Page, node: NodeId, control: ControlState) -> bool {
    &&& page.values.contains_pair(node, control.value@)
    &&& page.selections.dom().contains(node)
    &&& found(control.selection_start) == Some(page.selections[node].0)
    &&& found(control.selection_end) == Some(page.selections[node].1)
    &&& text_of(found(control.selection_direction)) == Some(page.selections[node].2)
}

/// What the active control was made to hold is what the next text input reports, where the
/// control has been left alone: the text as far as the control keeps it, with what is selected of
/// it. A selection without a direction is reported as one where the browser knows such selections.
pub proof fn a_text_state_reads_back(
    page: Page,
    ime: ImeElement,
    control: ControlState,
    before: BeforeInput,
    event: InputEvent,
    value: Seq<char>,
    start: u32,
    end: u32,
    direction: WebSelectionDirection,
)
    requires
        ime.textarea != ime.password,
        page.values.dom().contains(ime.active()),
        shows(
            perform(
                page,
                text_state_commands(ime, page.values[ime.active()], value, start, end, direction),
            ),
            ime.active(),
            control,
        ),
    ensures
        ({
            let report = text_input_report(control, before, event);
            let text = held(page, ime.active(), value);
            let limit = at_most(utf16_len_u32(value), utf16_len_u32(text));
            &&& report.value@ == text
            &&& report.selection_end == at_most(end, limit)
            &&& report.selection_start == at_most(start, report.selection_end)
            &&& report.selection_direction == if page.undirected {
                direction
            } else {
                match direction {
                    WebSelectionDirection::Backward => WebSelectionDirection::Backward,
                    _ => WebSelectionDirection::Forward,
                }
            }
            &&& page.kept(ime.active(), value) == value ==> {
                &&& report.value@ == value
                &&& report.selection_end == at_most(end, utf16_len_u32(value))
            }
        }),
{
    the_active_control_holds_the_text_state(page, ime, value, start, end, direction);
    a_direction_reads_back(direction);
    a_direction_reads_back(WebSelectionDirection::Forward);
    reveal_strlit("backward");
    reveal_strlit("forward");
    reveal_strlit("none");
    assert("backward"@.len() == 8 && "forward"@.len() == 7 && "none"@.len() == 4);
}

/// A size that the canvas keeps is reported once: the same change of scale a second time takes
/// no command. A change to another size leaves the report to the observer.
pub proof fn a_size_is_reported_once(
    canvas: Canvas,
    current_size: PhysicalSize,
    new_size: PhysicalSize,
)
    ensures
        ({
            let after = after_scale_change(canvas, current_size, new_size);
            &&& current_size == new_size ==> {
                &&& after.common.old_size == new_size
                &&& scale_change_commands(after, current_size, new_size).len() == 0
                &&& canvas.common.old_size == new_size ==> scale_change_commands(
                    canvas,
                    current_size,
                    new_size,
                ).len() == 0
                &&& canvas.common.old_size != new_size ==> scale_change_commands(
                    canvas,
                    current_size,
                    new_size,
                ).len() == 1
            }
            &&& current_size != new_size ==> {
                &&& after == canvas
                &&& scale_change_commands(canvas, current_size, new_size).len() == 2
            }
        }),
{
}

/// A change of scale to another size fails exactly where the canvas is not observed, and with the
/// failure that says so; nothing else about a change of scale fails. `results` are those of the
/// commands, where a notice to the observer succeeds exactly where there is an observer.
pub proof fn a_scale_change_needs_an_observer(
    canvas: Canvas,
    current_size: PhysicalSize,
    new_size: PhysicalSize,
    results: Seq<bool>,
)
    requires
        results.len() == scale_change_commands(canvas, current_size, new_size).len(),
        forall|i: int|
            0 <= i < results.len() ==> (scale_change_commands(
                canvas,
                current_size,
                new_size,
            )[i].action matches Action::NotifyResize { observed } ==> #[trigger] results[i]
                == observed),
    ensures
        run(scale_change_commands(canvas, current_size, new_size), results) == if current_size
            != new_size && canvas.on_resize_scale is None {
            Err::<(), Failure<Seq<char>>>(Failure::Panic("expected Window to still be active"@))
        } else {
            Ok(())
        },
{
    reveal_with_fuel(run, 3);
    let commands = scale_change_commands(canvas, current_size, new_size);
    if current_size != new_size {
        assert(results[1] == (canvas.on_resize_scale is Some));
        assert(commands.drop_first()[0] == commands[1]);
        assert(results.drop_first()[0] == results[1]);
    }
}

/// What is on the clipboard is of no account where it is not read.
pub proof fn an_unread_clipboard_is_of_no_account(
    canvas: Canvas,
    action: WebClipboardAction,
    target: Option<NodeId>,
    one: Option<Result<String, ReadError>>,
    other: Option<Result<String, ReadError>>,
)
    ensures
        !clipboard_read(canvas, action, target) ==> clipboard_request(canvas, action, target, one)
            == clipboard_request(canvas, action, target, other),
        !concerns(canvas, target) ==> !clipboard_read(canvas, action, target)
            && clipboard_request(canvas, action, target, one) is None,
{
}

/// A script goes on with the rest of its commands until a failure is of account, and ends as the
/// commands end.
pub proof fn a_script_ends_as_its_commands(
    rest: Seq<Command<Seq<char>>>,
    succeeded: bool,
    later: Seq<bool>,
)
    requires
        rest.len() > 0,
    ensures
        run(rest, seq![succeeded] + later) == match verdict(rest[0].on_failure, succeeded) {
            Some(failure) => Err(failure),
            None => run(rest.drop_first(), later),
        },
{
    let results = seq![succeeded] + later;
    assert(results[0] == succeeded);
    assert(results.drop_first() =~= later);
}

/// Commands that are carried out end with a failure exactly where one of them fails whose failure
/// is of account, and it is the first such failure that they end with.
pub proof fn the_first_failure_counts(commands: Seq<Command<Seq<char>>>, results: Seq<bool>)
    requires
        results.len() == commands.len(),
    ensures
        run(commands, results) is Ok <==> forall|i: int|
            0 <= i < commands.len() ==> verdict(
                (#[trigger] commands[i]).on_failure,
                results[i],
            ) is None,
        run(commands, results) matches Err(failure) ==> exists|i: int|
            {
                &&& 0 <= i < commands.len()
                &&& verdict((#[trigger] commands[i]).on_failure, results[i]) == Some(failure)
                &&& forall|j: int|
                    0 <= j < i ==> verdict(
                        (#[trigger] commands[j]).on_failure,
                        results[j],
                    ) is None
            },
    decreases commands.len(),
{
    if commands.len() > 0 {
        let rest = commands.drop_first();
        let later = results.drop_first();
        the_first_failure_counts(rest, later);
        match verdict(commands[0].on_failure, results[0]) {
            Some(failure) => {},
            None => {
                if run(rest, later) is Ok {
                    assert forall|i: int| 0 <= i < commands.len() implies verdict(
                        (#[trigger] commands[i]).on_failure,
                        results[i],
                    ) is None by {
                        if i > 0 {
                            assert(rest[i - 1] == commands[i]);
                            assert(later[i - 1] == results[i]);
                        }
                    }
                } else {
                    let failure = run(rest, later)->Err_0;
                    let k = choose|i: int|
                        {
                            &&& 0 <= i < rest.len()
                            &&& verdict((#[trigger] rest[i]).on_failure, later[i]) == Some(failure)
                            &&& forall|j: int|
                                0 <= j < i ==> verdict(
                                    (#[trigger] rest[j]).on_failure,
                                    later[j],
                                ) is None
                        };
                    assert(commands[k + 1] == rest[k]);
                    assert(results[k + 1] == later[k]);
                    assert forall|j: int| 0 <= j < k + 1 implies verdict(
                        (#[trigger] commands[j]).on_failure,
                        results[j],
                    ) is None by {
                        if j > 0 {
                            assert(rest[j - 1] == commands[j]);
                            assert(later[j - 1] == results[j]);
                        }
                    }
                }
            },
        }
    }
}

} // verus!
