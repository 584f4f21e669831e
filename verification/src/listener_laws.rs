//! What holds of the listeners of a canvas.

use vstd::prelude::*;

use crate::answers::{answer, canvas_answer, control_answer, document_answer, Answer};
use crate::canvas::Canvas;
use crate::clipboard::WebClipboardAction;
use crate::listener::{single, EventListenerHandle};

verus! {

/// The place of a listener on the canvas element or the document in the order of all listeners.
/// What is not answered there has no place.
spec fn outer_rank(answer: Option<Answer>) -> int {
    match answer {
        Some(Answer::TouchStart) => 0,
        Some(Answer::Focus) => 1,
        Some(Answer::Blur) => 2,
        Some(Answer::KeyRelease) => 3,
        Some(Answer::KeyPress) => 4,
        Some(Answer::Wheel) => 9,
        Some(Answer::ContextMenu) => 10,
        Some(Answer::Clipboard(WebClipboardAction::Copy)) => 11,
        Some(Answer::Clipboard(WebClipboardAction::Cut)) => 12,
        Some(Answer::Clipboard(WebClipboardAction::Paste)) => 13,
        _ => -1,
    }
}

/// The place of a listener on the text area in the order of all listeners. The one on the
/// password field comes next. What is not answered there has no place.
spec fn control_rank(answer: Option<Answer>) -> int {
    match answer {
        Some(Answer::KeyRelease) => 5,
        Some(Answer::KeyPress) => 7,
        Some(Answer::ImeFocus) => 14,
        Some(Answer::ImeBlur) => 16,
        Some(Answer::CompositionStart) => 18,
        Some(Answer::CompositionUpdate) => 20,
        Some(Answer::CompositionEnd) => 22,
        Some(Answer::BeforeInput) => 24,
        Some(Answer::TextInput) => 26,
        _ => -2,
    }
}

/// The place of a listener in the order of all listeners.
spec fn rank(canvas: Canvas, listener: EventListenerHandle) -> int {
    if listener.target == canvas.common.raw || listener.target == canvas.common.document {
        outer_rank(answer(canvas, listener))
    } else if listener.target == canvas.ime_element.textarea {
        control_rank(answer(canvas, listener))
    } else {
        control_rank(answer(canvas, listener)) + 1
    }
}

/// The listeners come in order, between two places.
#[verifier::opaque]
spec fn ordered(canvas: Canvas, list: Seq<EventListenerHandle>, from: int, to: int) -> bool {
    &&& forall|i: int| 0 <= i < list.len() ==> from <= #[trigger] rank(canvas, list[i]) < to
    &&& forall|i: int, j: int|
        0 <= i < j < list.len() ==> #[trigger] rank(canvas, list[i]) < #[trigger] rank(
            canvas,
            list[j],
        )
}

proof fn ordered_concat(
    canvas: Canvas,
    first: Seq<EventListenerHandle>,
    second: Seq<EventListenerHandle>,
    middle: int,
    to: int,
)
    requires
        ordered(canvas, first, 0, middle),
        ordered(canvas, second, middle, to),
        0 <= middle <= to,
    ensures
        ordered(canvas, first + second, 0, to),
{
    reveal(ordered);
    let list = first + second;
    assert forall|i: int| 0 <= i < list.len() implies 0 <= #[trigger] rank(canvas, list[i])
        < to by {
        if i < first.len() {
            assert(list[i] == first[i]);
            assert(rank(canvas, first[i]) < middle);
        } else {
            assert(list[i] == second[i - first.len()]);
            assert(middle <= rank(canvas, second[i - first.len()]) < to);
        }
    }
    assert forall|i: int, j: int| 0 <= i < j < list.len() implies #[trigger] rank(canvas, list[i])
        < #[trigger] rank(canvas, list[j]) by {
        if j < first.len() {
            assert(list[i] == first[i] && list[j] == first[j]);
            assert(rank(canvas, first[i]) < rank(canvas, first[j]));
        } else if i >= first.len() {
            assert(list[i] == second[i - first.len()] && list[j] == second[j - first.len()]);
            assert(rank(canvas, second[i - first.len()]) < rank(canvas, second[j - first.len()]));
        } else {
            assert(list[i] == first[i] && list[j] == second[j - first.len()]);
            assert(rank(canvas, first[i]) < middle);
            assert(middle <= rank(canvas, second[j - first.len()]));
        }
    }
}

/// What the names of events stand for.
proof fn answers_to_names()
    ensures
        canvas_answer("touchstart"@) == Some(Answer::TouchStart),
        canvas_answer("focus"@) == Some(Answer::Focus),
        canvas_answer("blur"@) == Some(Answer::Blur),
        canvas_answer("keyup"@) == Some(Answer::KeyRelease),
        canvas_answer("keydown"@) == Some(Answer::KeyPress),
        canvas_answer("wheel"@) == Some(Answer::Wheel),
        canvas_answer("contextmenu"@) == Some(Answer::ContextMenu),
        document_answer("copy"@) == Some(Answer::Clipboard(WebClipboardAction::Copy)),
        document_answer("cut"@) == Some(Answer::Clipboard(WebClipboardAction::Cut)),
        document_answer("paste"@) == Some(Answer::Clipboard(WebClipboardAction::Paste)),
        control_answer("keyup"@) == Some(Answer::KeyRelease),
        control_answer("keydown"@) == Some(Answer::KeyPress),
        control_answer("focus"@) == Some(Answer::ImeFocus),
        control_answer("blur"@) == Some(Answer::ImeBlur),
        control_answer("compositionstart"@) == Some(Answer::CompositionStart),
        control_answer("compositionupdate"@) == Some(Answer::CompositionUpdate),
        control_answer("compositionend"@) == Some(Answer::CompositionEnd),
        control_answer("beforeinput"@) == Some(Answer::BeforeInput),
        control_answer("input"@) == Some(Answer::TextInput),
{
    reveal_strlit("touchstart");
    reveal_strlit("focus");
    reveal_strlit("blur");
    reveal_strlit("keyup");
    reveal_strlit("keydown");
    reveal_strlit("wheel");
    reveal_strlit("contextmenu");
    reveal_strlit("copy");
    reveal_strlit("cut");
    reveal_strlit("paste");
    reveal_strlit("compositionstart");
    reveal_strlit("compositionupdate");
    reveal_strlit("compositionend");
    reveal_strlit("beforeinput");
    reveal_strlit("input");
    assert("touchstart"@.len() == 10 && "focus"@.len() == 5 && "blur"@.len() == 4
        && "keyup"@.len() == 5 && "keydown"@.len() == 7 && "wheel"@.len() == 5
        && "contextmenu"@.len() == 11 && "copy"@.len() == 4 && "cut"@.len() == 3
        && "paste"@.len() == 5 && "compositionstart"@.len() == 16 && "compositionupdate"@.len()
        == 17 && "compositionend"@.len() == 14 && "beforeinput"@.len() == 11 && "input"@.len()
        == 5);
    assert("focus"@[0] == 'f' && "keyup"@[0] == 'k' && "wheel"@[0] == 'w' && "input"@[0] == 'i');
}

/// A listener on the canvas element or the document goes behind those before it.
proof fn single_goes_behind(
    canvas: Canvas,
    list: Seq<EventListenerHandle>,
    place: Option<EventListenerHandle>,
    event: &'static str,
    at: int,
)
    requires
        ordered(canvas, list, 0, at),
        at >= 0,
        canvas.common.document != canvas.common.raw,
        Canvas::holds(place, canvas.common.raw, event) && outer_rank(canvas_answer(event@)) == at
            || Canvas::holds(place, canvas.common.document, event) && outer_rank(
            document_answer(event@),
        ) == at,
    ensures
        ordered(canvas, list + single(place), 0, at + 1),
{
    assert(ordered(canvas, single(place), at, at + 1)) by {
        reveal(ordered);
    }
    ordered_concat(canvas, list, single(place), at, at + 1);
}

/// Listeners on the text controls go behind those before them.
proof fn both_go_behind(
    canvas: Canvas,
    list: Seq<EventListenerHandle>,
    place: Seq<EventListenerHandle>,
    event: &'static str,
    at: int,
)
    requires
        ordered(canvas, list, 0, at),
        at >= 0,
        canvas.common.separate(canvas.ime_element),
        Canvas::holds_both(place, canvas.ime_element, event),
        control_rank(control_answer(event@)) == at,
    ensures
        ordered(canvas, list + place, 0, at + 2),
{
    assert(ordered(canvas, place, at, at + 2)) by {
        reveal(ordered);
    }
    ordered_concat(canvas, list, place, at, at + 2);
}

/// The listeners of a canvas come in order.
proof fn listeners_are_ordered(canvas: Canvas)
    requires
        canvas.wf(),
    ensures
        ordered(canvas, canvas.listeners(), 0, 28),
{
    answers_to_names();
    let c = canvas;
    let l = Seq::<EventListenerHandle>::empty();
    assert(ordered(c, l, 0, 0)) by {
        reveal(ordered);
    }
    single_goes_behind(c, l, c.on_touch_start, "touchstart", 0);
    assert(l + single(c.on_touch_start) =~= single(c.on_touch_start));
    let l = single(c.on_touch_start);
    single_goes_behind(c, l, c.on_focus, "focus", 1);
    let l = l + single(c.on_focus);
    single_goes_behind(c, l, c.on_blur, "blur", 2);
    let l = l + single(c.on_blur);
    single_goes_behind(c, l, c.on_keyboard_release, "keyup", 3);
    let l = l + single(c.on_keyboard_release);
    single_goes_behind(c, l, c.on_keyboard_press, "keydown", 4);
    let l = l + single(c.on_keyboard_press);
    both_go_behind(c, l, c.on_ime_keyboard_release@, "keyup", 5);
    let l = l + c.on_ime_keyboard_release@;
    both_go_behind(c, l, c.on_ime_keyboard_press@, "keydown", 7);
    let l = l + c.on_ime_keyboard_press@;
    single_goes_behind(c, l, c.on_mouse_wheel, "wheel", 9);
    let l = l + single(c.on_mouse_wheel);
    assert(l + single(c.on_touch_end) =~= l);
    let l = l + single(c.on_touch_end);
    single_goes_behind(c, l, c.on_context_menu, "contextmenu", 10);
    let l = l + single(c.on_context_menu);
    single_goes_behind(c, l, c.on_copy, "copy", 11);
    let l = l + single(c.on_copy);
    single_goes_behind(c, l, c.on_cut, "cut", 12);
    let l = l + single(c.on_cut);
    single_goes_behind(c, l, c.on_paste, "paste", 13);
    let l = l + single(c.on_paste);
    both_go_behind(c, l, c.on_ime_focus@, "focus", 14);
    let l = l + c.on_ime_focus@;
    both_go_behind(c, l, c.on_ime_blur@, "blur", 16);
    let l = l + c.on_ime_blur@;
    both_go_behind(c, l, c.on_composition_start@, "compositionstart", 18);
    let l = l + c.on_composition_start@;
    both_go_behind(c, l, c.on_composition_update@, "compositionupdate", 20);
    let l = l + c.on_composition_update@;
    both_go_behind(c, l, c.on_composition_end@, "compositionend", 22);
    let l = l + c.on_composition_end@;
    both_go_behind(c, l, c.on_before_input@, "beforeinput", 24);
    let l = l + c.on_before_input@;
    both_go_behind(c, l, c.on_text_input@, "input", 26);
    let l = l + c.on_text_input@;
}

/// The listener that a place holds is answered in the given way.
pub open spec fn answered(
    canvas: Canvas,
    place: Option<EventListenerHandle>,
    expected: Answer,
) -> bool {
    place matches Some(listener) ==> answer(canvas, listener) == Some(expected)
}

/// Each listener of a list is answered in the given way.
pub open spec fn all_answered(
    canvas: Canvas,
    place: Seq<EventListenerHandle>,
    expected: Answer,
) -> bool {
    forall|i: int| 0 <= i < place.len() ==> answer(canvas, #[trigger] place[i]) == Some(expected)
}

/// Every listener is answered in the way of the place that holds it.
pub proof fn every_place_has_its_answer(canvas: Canvas)
    requires
        canvas.wf(),
    ensures
        answered(canvas, canvas.on_touch_start, Answer::TouchStart),
        answered(canvas, canvas.on_focus, Answer::Focus),
        answered(canvas, canvas.on_blur, Answer::Blur),
        answered(canvas, canvas.on_keyboard_release, Answer::KeyRelease),
        answered(canvas, canvas.on_keyboard_press, Answer::KeyPress),
        all_answered(canvas, canvas.on_ime_keyboard_release@, Answer::KeyRelease),
        all_answered(canvas, canvas.on_ime_keyboard_press@, Answer::KeyPress),
        answered(canvas, canvas.on_mouse_wheel, Answer::Wheel),
        answered(canvas, canvas.on_context_menu, Answer::ContextMenu),
        answered(canvas, canvas.on_copy, Answer::Clipboard(WebClipboardAction::Copy)),
        answered(canvas, canvas.on_cut, Answer::Clipboard(WebClipboardAction::Cut)),
        answered(canvas, canvas.on_paste, Answer::Clipboard(WebClipboardAction::Paste)),
        all_answered(canvas, canvas.on_ime_focus@, Answer::ImeFocus),
        all_answered(canvas, canvas.on_ime_blur@, Answer::ImeBlur),
        all_answered(canvas, canvas.on_composition_start@, Answer::CompositionStart),
        all_answered(canvas, canvas.on_composition_update@, Answer::CompositionUpdate),
        all_answered(canvas, canvas.on_composition_end@, Answer::CompositionEnd),
        all_answered(canvas, canvas.on_before_input@, Answer::BeforeInput),
        all_answered(canvas, canvas.on_text_input@, Answer::TextInput),
{
    answers_to_names();
}

/// No listener of a canvas is left without an answer.
pub proof fn every_listener_is_answered(canvas: Canvas)
    requires
        canvas.wf(),
    ensures
        forall|i: int|
            0 <= i < canvas.listeners().len() ==> answer(
                canvas,
                #[trigger] canvas.listeners()[i],
            ) is Some,
{
    listeners_are_ordered(canvas);
    let list = canvas.listeners();
    assert forall|i: int| 0 <= i < list.len() implies answer(
        canvas,
        #[trigger] list[i],
    ) is Some by {
        reveal(ordered);
        assert(0 <= rank(canvas, list[i]));
    }
}

/// No two listeners of a canvas are for the same event on the same target.
pub proof fn no_event_is_heard_twice(canvas: Canvas)
    requires
        canvas.wf(),
    ensures
        forall|i: int, j: int|
            0 <= i < canvas.listeners().len() && 0 <= j < canvas.listeners().len() && i != j ==> (
            (#[trigger] canvas.listeners()[i]).target != (#[trigger] canvas.listeners()[j]).target
                || canvas.listeners()[i].event@ != canvas.listeners()[j].event@),
{
    listeners_are_ordered(canvas);
    let list = canvas.listeners();
    assert forall|i: int, j: int|
        0 <= i < list.len() && 0 <= j < list.len() && i != j implies (
        (#[trigger] list[i]).target != (#[trigger] list[j]).target || list[i].event@
            != list[j].event@) by {
        reveal(ordered);
        if i < j {
            assert(rank(canvas, list[i]) < rank(canvas, list[j]));
        } else {
            assert(rank(canvas, list[j]) < rank(canvas, list[i]));
        }
    }
}

} // verus!
