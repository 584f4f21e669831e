//! What holds of texts, words and lists of commands, whatever they hold.

use vstd::prelude::*;

use crate::canvas::at_most;
use crate::command::{
    attempt, listing, or_error, or_panic, verdict, Action, Command, Declaration, Failure,
    OnFailure, Placement, Script,
};
use crate::common::style_of;
use crate::ime::found;
use crate::input::{
    direction_name, direction_of, reports, text_of, Ime, ImeReport, WebSelectionDirection,
};
use crate::text::{ascii_lower, ascii_lowercase, utf16_len, utf16_len_u32};
use crate::types::{NodeId, PhysicalSize, ReadError, WindowId};

verus! {

/// The capital letters of ASCII become the small ones, 32 places on; nothing else changes, and
/// nothing changes twice.
pub proof fn capitals_become_small(c: char)
    ensures
        'A' <= c <= 'Z' <==> ascii_lower(c) != c,
        'A' <= c <= 'Z' ==> ascii_lower(c) as int == c as int + 32,
        ascii_lower(ascii_lower(c)) == ascii_lower(c),
{
}

/// A text is made small character by character.
pub proof fn texts_become_small(s: Seq<char>)
    ensures
        ascii_lowercase(s).len() == s.len(),
        forall|i: int|
            0 <= i < s.len() ==> #[trigger] ascii_lowercase(s)[i] == ascii_lower(s[i]),
{
}

/// Characters up to `U+FFFF` take one code unit of UTF-16, and those beyond take two.
pub proof fn a_character_takes_one_unit_or_two(c: char)
    ensures
        c as int <= 0xffff ==> utf16_len(seq![c]) == 1,
        c as int > 0xffff ==> utf16_len(seq![c]) == 2,
{
    reveal_with_fuel(utf16_len, 2);
    assert(seq![c].drop_last() =~= Seq::empty());
}

/// The length of a text in code units is the sum of the lengths of its parts, and nothing has no
/// length.
pub proof fn lengths_add_up(one: Seq<char>, other: Seq<char>)
    ensures
        utf16_len(one + other) == utf16_len(one) + utf16_len(other),
        utf16_len(Seq::empty()) == 0,
    decreases other.len(),
{
    if other.len() == 0 {
        assert(one + other =~= one);
    } else {
        lengths_add_up(one, other.drop_last());
        assert((one + other).drop_last() =~= one + other.drop_last());
        assert((one + other).last() == other.last());
    }
}

/// A length that 32 bits hold is the length; any other is the largest that they hold.
pub proof fn lengths_stop_at_the_largest(s: Seq<char>)
    ensures
        utf16_len(s) <= 0xffff_ffff ==> utf16_len_u32(s) == utf16_len(s),
        utf16_len(s) > 0xffff_ffff ==> utf16_len_u32(s) == 0xffff_ffff,
{
}

/// A position with a limit is the position where that is within the limit, and else the limit.
pub proof fn positions_stop_at_the_limit(position: u32, limit: u32)
    ensures
        at_most(position, limit) <= position,
        at_most(position, limit) <= limit,
        at_most(position, limit) == position || at_most(position, limit) == limit,
{
}

/// The words for directions are those of the page, and every word but two of them gives none.
pub proof fn directions_have_their_words(name: Option<Seq<char>>)
    ensures
        direction_name(WebSelectionDirection::Backward) == "backward"@,
        direction_name(WebSelectionDirection::Forward) == "forward"@,
        direction_name(WebSelectionDirection::Undirected) == "none"@,
        direction_of(name) == WebSelectionDirection::Backward <==> name == Some("backward"@),
        direction_of(name) == WebSelectionDirection::Forward <==> name == Some("forward"@),
{
    reveal_strlit("backward");
    reveal_strlit("forward");
    assert("backward"@.len() == 8 && "forward"@.len() == 7);
}

/// A read that was granted comes to what it found, and one that was refused to nothing.
pub proof fn a_refused_read_finds_nothing<T>(read: Result<Option<T>, ReadError>)
    ensures
        read matches Ok(value) ==> found(read) == value,
        read is Err ==> found(read) is None,
{
}

/// An optional text is there exactly where the string is, and is that of the string.
pub proof fn an_optional_text_is_that_of_the_string(text: Option<String>)
    ensures
        text is Some <==> text_of(text) is Some,
        text matches Some(s) ==> text_of(text) == Some(s@),
{
}

/// The style of the canvas is read as resolved and written on the element.
pub proof fn a_style_is_read_resolved_and_written_inline(node: NodeId)
    ensures
        style_of(node).read == Declaration::Computed(node),
        style_of(node).write == Declaration::Inline(node),
{
}

/// A success ends nothing. A failure ends what is under way exactly where it is of account, with
/// the message that the command has for it: as an error, or for good.
pub proof fn a_failure_ends_as_the_command_says(
    action: Action<Seq<char>>,
    message: Seq<char>,
    on_failure: OnFailure<Seq<char>>,
)
    ensures
        verdict(on_failure, true) is None,
        verdict(attempt(action).on_failure, false) is None,
        verdict(or_error(action, message).on_failure, false) == Some(Failure::Os(message)),
        verdict(or_panic(action, message).on_failure, false) == Some(Failure::Panic(message)),
        verdict(OnFailure::Error(message), false) == Some(Failure::Os(message)),
        verdict(OnFailure::Panic(message), false) == Some(Failure::Panic(message)),
        verdict(OnFailure::Ignore, false) is None,
        attempt(action).action == action,
        or_error(action, message).action == action,
        or_panic(action, message).action == action,
{
}

/// A listing has the commands of the list, one for one.
pub proof fn a_listing_is_of_the_commands(commands: Seq<Command<String>>)
    ensures
        listing(commands).len() == commands.len(),
        forall|i: int|
            0 <= i < commands.len() ==> (#[trigger] listing(commands)[i]).action
                == commands[i].action@ && listing(commands)[i].on_failure
                == commands[i].on_failure@,
{
}

/// What is left of a script are its commands but for those that are behind.
pub proof fn a_script_has_what_is_not_behind(script: Script)
    ensures
        script.done <= script.commands@.len() ==> script.rest().len() == script.commands@.len()
            - script.done,
        script.done > script.commands@.len() ==> script.rest().len() == 0,
        forall|i: int|
            0 <= i < script.rest().len() ==> #[trigger] script.rest()[i] == script.commands@[i
                + script.done]@,
{
}

/// The texts of an action are those of its strings, each in its place, and its numbers and nodes
/// are the same.
pub proof fn actions_keep_their_parts(
    node: NodeId,
    style: Declaration,
    start: u32,
    end: u32,
    a: String,
    b: String,
)
    ensures
        (Action::CreateElement { node, tag: a })@ == (Action::CreateElement { node, tag: a@ }),
        (Action::<String>::AppendToBody { node })@ == (Action::<Seq<char>>::AppendToBody { node }),
        (Action::<String>::RemoveNode { node })@ == (Action::<Seq<char>>::RemoveNode { node }),
        (Action::SetInputType { node, kind: a })@ == (Action::SetInputType { node, kind: a@ }),
        (Action::SetAttribute { node, name: a, value: b })@ == (Action::SetAttribute {
            node,
            name: a@,
            value: b@,
        }),
        (Action::RemoveAttribute { node, name: a })@ == (Action::RemoveAttribute {
            node,
            name: a@,
        }),
        (Action::ReadProperty { style, property: a })@ == (Action::ReadProperty {
            style,
            property: a@,
        }),
        (Action::SetProperty { style, property: a, value: b })@ == (Action::SetProperty {
            style,
            property: a@,
            value: b@,
        }),
        (Action::RemoveProperty { style, property: a })@ == (Action::RemoveProperty {
            style,
            property: a@,
        }),
        (Action::SetValue { node, value: a })@ == (Action::SetValue { node, value: a@ }),
        (Action::SetSelectionRange { node, start, end, direction: a })@ == (
        Action::SetSelectionRange { node, start, end, direction: a@ }),
        (Action::<String>::Focus { node })@ == (Action::<Seq<char>>::Focus { node }),
        OnFailure::Error(a)@ == OnFailure::Error(a@),
        OnFailure::Panic(a)@ == OnFailure::Panic(a@),
        OnFailure::<String>::Ignore@ == OnFailure::<Seq<char>>::Ignore,
        Failure::Os(a)@ == Failure::Os(a@),
        Failure::Panic(a)@ == Failure::Panic(a@),
{
}

/// An action without a text is the same in a listing.
pub proof fn actions_without_texts_stay_as_they_are(
    node: NodeId,
    other: NodeId,
    index: i32,
    what: Placement,
    id: WindowId,
    size: PhysicalSize,
    observed: bool,
)
    ensures
        Action::<String>::FindBody@ == Action::<Seq<char>>::FindBody,
        (Action::<String>::SetTabIndex { node, index })@ == (Action::<Seq<char>>::SetTabIndex {
            node,
            index,
        }),
        (Action::<String>::QueryComputedStyle { window: other, node })@ == (
        Action::<Seq<char>>::QueryComputedStyle { window: other, node }),
        (Action::<String>::TakeComputedStyle { node })@ == (
        Action::<Seq<char>>::TakeComputedStyle { node }),
        (Action::<String>::RequestPointerLock { node })@ == (
        Action::<Seq<char>>::RequestPointerLock { node }),
        (Action::<String>::ExitPointerLock { document: other })@ == (
        Action::<Seq<char>>::ExitPointerLock { document: other }),
        (Action::<String>::RequestFullscreen { document: other, node })@ == (
        Action::<Seq<char>>::RequestFullscreen { document: other, node }),
        (Action::<String>::ExitFullscreen { document: other, node })@ == (
        Action::<Seq<char>>::ExitFullscreen { document: other, node }),
        (Action::<String>::MakeCursor { node })@ == (Action::<Seq<char>>::MakeCursor { node }),
        (Action::<String>::Place { node, what })@ == (Action::<Seq<char>>::Place { node, what }),
        (Action::<String>::Resize { node, size })@ == (Action::<Seq<char>>::Resize { node, size }),
        (Action::<String>::NotifyResize { observed })@ == (Action::<Seq<char>>::NotifyResize {
            observed,
        }),
        (Action::<String>::SendResized { id, size })@ == (Action::<Seq<char>>::SendResized {
            id,
            size,
        }),
        Action::<String>::RemovePointerListeners@ == Action::<Seq<char>>::RemovePointerListeners,
        Action::<String>::RequestAnimationFrame@ == Action::<Seq<char>>::RequestAnimationFrame,
        Action::<String>::CancelAnimationFrame@ == Action::<Seq<char>>::CancelAnimationFrame,
{
}

/// The reports of a list are those of its values, one for one, with the same texts and cursors.
pub proof fn reports_keep_their_parts(
    list: Seq<ImeReport<String>>,
    text: String,
    cursor: Option<(usize, usize)>,
    focused: bool,
)
    ensures
        reports(list).len() == list.len(),
        forall|i: int| 0 <= i < list.len() ==> #[trigger] reports(list)[i] == list[i]@,
        Ime::Preedit(text, cursor)@ == Ime::Preedit(text@, cursor),
        Ime::<String>::Enabled@ == Ime::<Seq<char>>::Enabled,
        Ime::<String>::Disabled@ == Ime::<Seq<char>>::Disabled,
        ImeReport::<String>::Focus(focused)@ == ImeReport::<Seq<char>>::Focus(focused),
        ImeReport::Ime(Ime::Preedit(text, cursor))@ == ImeReport::Ime(
            Ime::Preedit(text@, cursor),
        ),
{
}

} // verus!
