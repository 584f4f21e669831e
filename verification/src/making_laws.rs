//! What the making of a canvas takes, stated of what is asked for.

use vstd::prelude::*;

use crate::canvas::{
    appending, create_commands, cursor_commands, element_commands, focusing, indexing, making,
    placement_commands, placing, screening, searching, CanvasNodes, WindowAttributes,
};
use crate::command::{Action, Command, Declaration, OnFailure, Placement};
use crate::common::style_commands;
use crate::create_laws::hiding_names_are_distinct;
use crate::ime::{control_elements, creation, preparation};
use crate::types::NodeId;

verus! {

/// The action is among those of the commands.
#[verifier::opaque]
pub open spec fn occurs(commands: Seq<Command<Seq<char>>>, action: Action<Seq<char>>) -> bool {
    exists|i: int| 0 <= i < commands.len() && (#[trigger] commands[i]).action == action
}

/// The element that serves as the canvas: the one that is given, or else a new one.
pub open spec fn serving(attr: WindowAttributes, nodes: CanvasNodes) -> NodeId {
    if attr.canvas is Some {
        attr.canvas->0
    } else {
        nodes.canvas
    }
}

/// The canvas, the text area and the password field are different nodes.
pub open spec fn apart(attr: WindowAttributes, nodes: CanvasNodes) -> bool {
    &&& nodes.textarea != nodes.password
    &&& serving(attr, nodes) != nodes.textarea
    &&& serving(attr, nodes) != nodes.password
}

/// The action gives a text control what hides it and keeps it out of the way, or puts it in the
/// page.
pub open spec fn prepares(action: Action<Seq<char>>, node: NodeId) -> bool {
    let style = Declaration::Inline(node);
    ||| action == Action::<Seq<char>>::SetTabIndex { node, index: (-1) as i32 }
    ||| action == Action::SetAttribute { node, name: "autocomplete"@, value: "off"@ }
    ||| action == Action::SetAttribute { node, name: "autocapitalize"@, value: "off"@ }
    ||| action == Action::SetProperty { style, property: "position"@, value: "fixed"@ }
    ||| action == Action::SetProperty { style, property: "width"@, value: "1px"@ }
    ||| action == Action::SetProperty { style, property: "height"@, value: "1px"@ }
    ||| action == Action::SetProperty { style, property: "opacity"@, value: "0"@ }
    ||| action == Action::SetProperty { style, property: "pointer-events"@, value: "none"@ }
    ||| action == Action::SetProperty { style, property: "resize"@, value: "none"@ }
    ||| action == Action::SetProperty { style, property: "overflow"@, value: "hidden"@ }
    ||| action == Action::<Seq<char>>::FindBody
    ||| action == Action::<Seq<char>>::AppendToBody { node }
}

/// The action is needed whatever is asked for: it obtains the style or makes the controls or the
/// cursor.
pub open spec fn is_standing(action: Action<Seq<char>>, nodes: CanvasNodes, node: NodeId) -> bool {
    ||| action == Action::<Seq<char>>::QueryComputedStyle { window: nodes.window, node }
    ||| action == Action::<Seq<char>>::TakeComputedStyle { node }
    ||| action == Action::CreateElement { node: nodes.textarea, tag: "textarea"@ }
    ||| action == Action::CreateElement { node: nodes.password, tag: "input"@ }
    ||| action == Action::SetInputType { node: nodes.password, kind: "password"@ }
    ||| prepares(action, nodes.textarea)
    ||| prepares(action, nodes.password)
    ||| action == Action::<Seq<char>>::MakeCursor { node }
}

/// The action is needed because of what is asked for.
pub open spec fn is_asked_for(
    action: Action<Seq<char>>,
    attr: WindowAttributes,
    nodes: CanvasNodes,
    in_document: bool,
    node: NodeId,
) -> bool {
    let append = attr.append && (attr.canvas is None || !in_document);
    ||| attr.canvas is None && action == Action::CreateElement { node, tag: "canvas"@ }
    ||| append && action == Action::<Seq<char>>::FindBody
    ||| append && action == Action::<Seq<char>>::AppendToBody { node }
    ||| attr.focusable && action == Action::SetAttribute { node, name: "tabindex"@, value: "0"@ }
    ||| attr.inner_size && action == Action::<Seq<char>>::Place { node, what: Placement::InnerSize }
    ||| attr.min_inner_size && action == Action::<Seq<char>>::Place {
        node,
        what: Placement::MinInnerSize,
    }
    ||| attr.max_inner_size && action == Action::<Seq<char>>::Place {
        node,
        what: Placement::MaxInnerSize,
    }
    ||| attr.position && action == Action::<Seq<char>>::Place { node, what: Placement::Position }
    ||| attr.fullscreen && action == Action::<Seq<char>>::RequestFullscreen {
        document: nodes.document,
        node,
    }
    ||| attr.active && action == Action::<Seq<char>>::Focus { node }
}

proof fn occurs_in_parts(
    first: Seq<Command<Seq<char>>>,
    second: Seq<Command<Seq<char>>>,
    action: Action<Seq<char>>,
)
    ensures
        occurs(first + second, action) <==> occurs(first, action) || occurs(second, action),
{
    reveal(occurs);
    let all = first + second;
    if occurs(first, action) {
        let i = choose|i: int| 0 <= i < first.len() && (#[trigger] first[i]).action == action;
        assert(all[i].action == action);
    }
    if occurs(second, action) {
        let i = choose|i: int| 0 <= i < second.len() && (#[trigger] second[i]).action == action;
        assert(all[first.len() + i].action == action);
    }
    if occurs(all, action) {
        let i = choose|i: int| 0 <= i < all.len() && (#[trigger] all[i]).action == action;
        if i < first.len() {
            assert(first[i].action == action);
        } else {
            assert(second[i - first.len()].action == action);
        }
    }
}

/// A part that is one command or none has the action of that command.
proof fn occurs_in_a_part(part: Seq<Command<Seq<char>>>, action: Action<Seq<char>>)
    requires
        part.len() <= 1,
    ensures
        occurs(part, action) <==> part.len() == 1 && part[0].action == action,
{
    reveal(occurs);
}

proof fn occurs_in_element_commands(
    attr: WindowAttributes,
    nodes: CanvasNodes,
    in_document: bool,
    action: Action<Seq<char>>,
)
    ensures
        ({
            let node = serving(attr, nodes);
            let append = attr.append && (attr.canvas is None || !in_document);
            occurs(element_commands(attr, nodes, in_document), action) <==> {
                ||| attr.canvas is None && action == Action::CreateElement { node, tag: "canvas"@ }
                ||| append && action == Action::<Seq<char>>::FindBody
                ||| append && action == Action::<Seq<char>>::AppendToBody { node }
                ||| attr.focusable && action == Action::SetAttribute {
                    node,
                    name: "tabindex"@,
                    value: "0"@,
                }
            }
        }),
{
    let c1 = making(attr, nodes);
    let c2 = searching(attr, in_document);
    let c3 = appending(attr, nodes, in_document);
    let c4 = indexing(attr, nodes);
    occurs_in_a_part(c1, action);
    occurs_in_a_part(c2, action);
    occurs_in_a_part(c3, action);
    occurs_in_a_part(c4, action);
    occurs_in_parts(c1, c2, action);
    occurs_in_parts(c1 + c2, c3, action);
    occurs_in_parts(c1 + c2 + c3, c4, action);
}

proof fn occurs_in_placement_commands(
    attr: WindowAttributes,
    document: NodeId,
    node: NodeId,
    action: Action<Seq<char>>,
)
    ensures
        occurs(placement_commands(attr, document, node), action) <==> {
            ||| attr.inner_size && action == Action::<Seq<char>>::Place {
                node,
                what: Placement::InnerSize,
            }
            ||| attr.min_inner_size && action == Action::<Seq<char>>::Place {
                node,
                what: Placement::MinInnerSize,
            }
            ||| attr.max_inner_size && action == Action::<Seq<char>>::Place {
                node,
                what: Placement::MaxInnerSize,
            }
            ||| attr.position && action == Action::<Seq<char>>::Place {
                node,
                what: Placement::Position,
            }
            ||| attr.fullscreen && action == Action::<Seq<char>>::RequestFullscreen {
                document,
                node,
            }
            ||| attr.active && action == Action::<Seq<char>>::Focus { node }
        },
{
    let c1 = placing(attr, node, Placement::InnerSize);
    let c2 = placing(attr, node, Placement::MinInnerSize);
    let c3 = placing(attr, node, Placement::MaxInnerSize);
    let c4 = placing(attr, node, Placement::Position);
    let c5 = screening(attr, document, node);
    let c6 = focusing(attr, node);
    occurs_in_a_part(c1, action);
    occurs_in_a_part(c2, action);
    occurs_in_a_part(c3, action);
    occurs_in_a_part(c4, action);
    occurs_in_a_part(c5, action);
    occurs_in_a_part(c6, action);
    occurs_in_parts(c1, c2, action);
    occurs_in_parts(c1 + c2, c3, action);
    occurs_in_parts(c1 + c2 + c3, c4, action);
    occurs_in_parts(c1 + c2 + c3 + c4, c5, action);
    occurs_in_parts(c1 + c2 + c3 + c4 + c5, c6, action);
}

proof fn occurs_in_preparation(node: NodeId, action: Action<Seq<char>>)
    ensures
        occurs(preparation(node), action) <==> prepares(action, node),
{
    reveal(occurs);
    let p = preparation(node);
    if prepares(action, node) {
        assert(p[0].action == action || p[1].action == action || p[2].action == action
            || p[3].action == action || p[4].action == action || p[5].action == action
            || p[6].action == action || p[7].action == action || p[8].action == action
            || p[9].action == action || p[10].action == action || p[11].action == action);
    }
}

proof fn occurs_in_creation(nodes: CanvasNodes, action: Action<Seq<char>>)
    ensures
        occurs(creation(nodes.textarea, nodes.password), action) <==> {
            ||| action == Action::CreateElement { node: nodes.textarea, tag: "textarea"@ }
            ||| action == Action::CreateElement { node: nodes.password, tag: "input"@ }
            ||| action == Action::SetInputType { node: nodes.password, kind: "password"@ }
            ||| prepares(action, nodes.textarea)
            ||| prepares(action, nodes.password)
        },
{
    let e = control_elements(nodes.textarea, nodes.password);
    assert(occurs(e, action) <==> e[0].action == action || e[1].action == action || e[2].action
        == action) by {
        reveal(occurs);
    }
    occurs_in_preparation(nodes.textarea, action);
    occurs_in_preparation(nodes.password, action);
    occurs_in_parts(e, preparation(nodes.textarea), action);
    occurs_in_parts(e + preparation(nodes.textarea), preparation(nodes.password), action);
}

/// The making of a canvas takes what is always needed and what is asked for, and nothing else.
pub proof fn a_canvas_takes_what_is_needed_or_asked_for(
    attr: WindowAttributes,
    nodes: CanvasNodes,
    in_document: bool,
    action: Action<Seq<char>>,
)
    ensures
        occurs(create_commands(attr, nodes, in_document), action) <==> is_standing(
            action,
            nodes,
            serving(attr, nodes),
        ) || is_asked_for(action, attr, nodes, in_document, serving(attr, nodes)),
{
    let node = serving(attr, nodes);
    let e = element_commands(attr, nodes, in_document);
    let s = style_commands(nodes.window, node);
    let k = creation(nodes.textarea, nodes.password);
    let c = cursor_commands(node);
    let q = placement_commands(attr, nodes.document, node);
    occurs_in_element_commands(attr, nodes, in_document, action);
    assert(occurs(s, action) <==> s[0].action == action || s[1].action == action) by {
        reveal(occurs);
    }
    occurs_in_creation(nodes, action);
    occurs_in_a_part(c, action);
    occurs_in_placement_commands(attr, nodes.document, node, action);
    occurs_in_parts(e, s, action);
    occurs_in_parts(e + s, k, action);
    occurs_in_parts(e + s + k, c, action);
    occurs_in_parts(e + s + k + c, q, action);
}

/// A canvas is given a size, a position, the full screen, the focus, a tab index and a place in
/// the page exactly where that very thing is asked for, whatever else is.
pub proof fn each_thing_that_is_asked_for_is_given(
    attr: WindowAttributes,
    nodes: CanvasNodes,
    in_document: bool,
)
    requires
        apart(attr, nodes),
    ensures
        ({
            let node = serving(attr, nodes);
            let commands = create_commands(attr, nodes, in_document);
            &&& occurs(commands, Action::Place { node, what: Placement::InnerSize })
                <==> attr.inner_size
            &&& occurs(commands, Action::Place { node, what: Placement::MinInnerSize })
                <==> attr.min_inner_size
            &&& occurs(commands, Action::Place { node, what: Placement::MaxInnerSize })
                <==> attr.max_inner_size
            &&& occurs(commands, Action::Place { node, what: Placement::Position })
                <==> attr.position
            &&& occurs(commands, Action::RequestFullscreen { document: nodes.document, node })
                <==> attr.fullscreen
            &&& occurs(commands, Action::Focus { node }) <==> attr.active
            &&& occurs(commands, Action::SetAttribute { node, name: "tabindex"@, value: "0"@ })
                <==> attr.focusable
            &&& occurs(commands, Action::CreateElement { node, tag: "canvas"@ })
                <==> attr.canvas is None
            &&& occurs(commands, Action::AppendToBody { node }) <==> attr.append && (
            attr.canvas is None || !in_document)
        }),
{
    let node = serving(attr, nodes);
    a_canvas_takes_what_is_needed_or_asked_for(
        attr,
        nodes,
        in_document,
        Action::Place { node, what: Placement::InnerSize },
    );
    a_canvas_takes_what_is_needed_or_asked_for(
        attr,
        nodes,
        in_document,
        Action::Place { node, what: Placement::MinInnerSize },
    );
    a_canvas_takes_what_is_needed_or_asked_for(
        attr,
        nodes,
        in_document,
        Action::Place { node, what: Placement::MaxInnerSize },
    );
    a_canvas_takes_what_is_needed_or_asked_for(
        attr,
        nodes,
        in_document,
        Action::Place { node, what: Placement::Position },
    );
    a_canvas_takes_what_is_needed_or_asked_for(
        attr,
        nodes,
        in_document,
        Action::RequestFullscreen { document: nodes.document, node },
    );
    a_canvas_takes_what_is_needed_or_asked_for(
        attr,
        nodes,
        in_document,
        Action::Focus { node },
    );
    a_canvas_takes_what_is_needed_or_asked_for(
        attr,
        nodes,
        in_document,
        Action::SetAttribute { node, name: "tabindex"@, value: "0"@ },
    );
    a_canvas_takes_what_is_needed_or_asked_for(
        attr,
        nodes,
        in_document,
        Action::CreateElement { node, tag: "canvas"@ },
    );
    a_canvas_takes_what_is_needed_or_asked_for(
        attr,
        nodes,
        in_document,
        Action::AppendToBody { node },
    );
}

/// What it means that a step of the making of a canvas fails. To make an element, to put a text
/// control in the page and to set the tab index of the canvas are steps that end with an error; a
/// page without a body, a canvas that cannot be put in it and a missing style end the program; no
/// other step is of account.
pub open spec fn fails_in_its_way(
    command: Command<Seq<char>>,
    nodes: CanvasNodes,
    node: NodeId,
) -> bool {
    command.on_failure == match command.action {
        Action::CreateElement { node: made, .. } => if made == nodes.textarea {
            OnFailure::Error("Failed to create IME textarea"@)
        } else if made == nodes.password {
            OnFailure::Error("Failed to create IME password input"@)
        } else {
            OnFailure::Error("Failed to create canvas element"@)
        },
        Action::FindBody => OnFailure::Panic("Failed to get body from document"@),
        Action::AppendToBody { node: appended } => if appended == node {
            OnFailure::Panic("Failed to append canvas to body"@)
        } else {
            OnFailure::Error("Failed to append IME element"@)
        },
        Action::SetAttribute { node: of, .. } => if of == node {
            OnFailure::Error("Failed to set a tabindex"@)
        } else {
            OnFailure::Ignore
        },
        Action::QueryComputedStyle { .. } => OnFailure::Panic("Failed to obtain computed style"@),
        Action::TakeComputedStyle { .. } => OnFailure::Panic("Invalid pseudo-element"@),
        _ => OnFailure::Ignore,
    }
}

/// The place of an action in the making of a canvas. To look for the body has none of its own.
pub open spec fn rank(action: Action<Seq<char>>, nodes: CanvasNodes) -> int {
    match action {
        Action::CreateElement { node, .. } => if node == nodes.textarea {
            5
        } else if node == nodes.password {
            6
        } else {
            0
        },
        Action::AppendToBody { node } => if node == nodes.textarea {
            30
        } else if node == nodes.password {
            50
        } else {
            1
        },
        Action::SetAttribute { node, name, .. } => {
            let at: int = if node == nodes.textarea {
                20
            } else if node == nodes.password {
                40
            } else {
                0
            };
            if at == 0 {
                2
            } else if name == "autocomplete"@ {
                at + 1
            } else {
                at + 2
            }
        },
        Action::QueryComputedStyle { .. } => 3,
        Action::TakeComputedStyle { .. } => 4,
        Action::SetInputType { .. } => 7,
        Action::SetTabIndex { node, .. } => if node == nodes.textarea {
            20
        } else {
            40
        },
        Action::SetProperty { style, property, .. } => {
            let at: int = if style == Declaration::Inline(nodes.textarea) {
                23
            } else {
                43
            };
            if property == "position"@ {
                at
            } else if property == "width"@ {
                at + 1
            } else if property == "height"@ {
                at + 2
            } else if property == "opacity"@ {
                at + 3
            } else if property == "pointer-events"@ {
                at + 4
            } else if property == "resize"@ {
                at + 5
            } else {
                at + 6
            }
        },
        Action::MakeCursor { .. } => 60,
        Action::Place { what: Placement::InnerSize, .. } => 61,
        Action::Place { what: Placement::MinInnerSize, .. } => 62,
        Action::Place { what: Placement::MaxInnerSize, .. } => 63,
        Action::Place { what: Placement::Position, .. } => 64,
        Action::RequestFullscreen { .. } => 65,
        Action::Focus { .. } => 66,
        _ => -1,
    }
}

/// The steps come in order, between two places, each once; each fails in its way; and the body is
/// looked for before each time that something is put in it, and at no other time.
#[verifier::opaque]
pub open spec fn in_order(
    commands: Seq<Command<Seq<char>>>,
    nodes: CanvasNodes,
    node: NodeId,
    from: int,
    to: int,
) -> bool {
    &&& forall|i: int|
        0 <= i < commands.len() ==> fails_in_its_way(#[trigger] commands[i], nodes, node)
    &&& forall|i: int|
        0 <= i < commands.len() && !((#[trigger] commands[i]).action is FindBody) ==> from <= rank(
            commands[i].action,
            nodes,
        ) < to
    &&& forall|i: int, j: int|
        0 <= i < j < commands.len() && !((#[trigger] commands[i]).action is FindBody) && !((
        #[trigger] commands[j]).action is FindBody) ==> rank(commands[i].action, nodes) < rank(
            commands[j].action,
            nodes,
        )
    &&& forall|i: int|
        0 <= i < commands.len() && (#[trigger] commands[i]).action is FindBody ==> i + 1
            < commands.len() && commands[i + 1].action is AppendToBody
    &&& forall|i: int|
        0 <= i < commands.len() && (#[trigger] commands[i]).action is AppendToBody ==> i > 0
            && commands[i - 1].action is FindBody
}

proof fn in_order_concat(
    first: Seq<Command<Seq<char>>>,
    second: Seq<Command<Seq<char>>>,
    nodes: CanvasNodes,
    node: NodeId,
    from: int,
    middle: int,
    to: int,
)
    requires
        in_order(first, nodes, node, from, middle),
        in_order(second, nodes, node, middle, to),
        from <= middle <= to,
    ensures
        in_order(first + second, nodes, node, from, to),
{
    reveal(in_order);
    let all = first + second;
    let n = first.len() as int;
    assert forall|i: int| 0 <= i < all.len() implies fails_in_its_way(
        #[trigger] all[i],
        nodes,
        node,
    ) by {
        if i < n {
            assert(all[i] == first[i]);
        } else {
            assert(all[i] == second[i - n]);
        }
    }
    assert forall|i: int|
        0 <= i < all.len() && !((#[trigger] all[i]).action is FindBody) implies from <= rank(
        all[i].action,
        nodes,
    ) < to by {
        if i < n {
            assert(all[i] == first[i]);
        } else {
            assert(all[i] == second[i - n]);
        }
    }
    assert forall|i: int, j: int|
        0 <= i < j < all.len() && !((#[trigger] all[i]).action is FindBody) && !((
        #[trigger] all[j]).action is FindBody) implies rank(all[i].action, nodes) < rank(
        all[j].action,
        nodes,
    ) by {
        if j < n {
            assert(all[i] == first[i] && all[j] == first[j]);
        } else if i >= n {
            assert(all[i] == second[i - n] && all[j] == second[j - n]);
        } else {
            assert(all[i] == first[i] && all[j] == second[j - n]);
        }
    }
    assert forall|i: int|
        0 <= i < all.len() && (#[trigger] all[i]).action is FindBody implies i + 1 < all.len()
        && all[i + 1].action is AppendToBody by {
        if i < n {
            assert(all[i] == first[i]);
            assert(all[i + 1] == first[i + 1]);
        } else {
            assert(all[i] == second[i - n]);
            assert(all[i + 1] == second[i - n + 1]);
        }
    }
    assert forall|i: int|
        0 <= i < all.len() && (#[trigger] all[i]).action is AppendToBody implies i > 0 && all[i
        - 1].action is FindBody by {
        if i < n {
            assert(all[i] == first[i]);
            assert(all[i - 1] == first[i - 1]);
        } else {
            assert(all[i] == second[i - n]);
            assert(all[i - 1] == second[i - n - 1]);
        }
    }
}

proof fn widened(
    commands: Seq<Command<Seq<char>>>,
    nodes: CanvasNodes,
    node: NodeId,
    from: int,
    to: int,
    beyond: int,
)
    requires
        in_order(commands, nodes, node, from, to),
        to <= beyond,
    ensures
        in_order(commands, nodes, node, from, beyond),
{
    reveal(in_order);
}

proof fn element_in_order(attr: WindowAttributes, nodes: CanvasNodes, in_document: bool)
    requires
        apart(attr, nodes),
    ensures
        in_order(element_commands(attr, nodes, in_document), nodes, serving(attr, nodes), 0, 3),
{
    let node = serving(attr, nodes);
    let c1 = making(attr, nodes);
    let c2 = searching(attr, in_document) + appending(attr, nodes, in_document);
    let c3 = indexing(attr, nodes);
    assert(in_order(c1, nodes, node, 0, 1)) by {
        reveal(in_order);
    }
    assert(in_order(c2, nodes, node, 1, 2)) by {
        reveal(in_order);
    }
    assert(in_order(c3, nodes, node, 2, 3)) by {
        reveal(in_order);
    }
    in_order_concat(c1, c2, nodes, node, 0, 1, 2);
    in_order_concat(c1 + c2, c3, nodes, node, 0, 2, 3);
    assert(element_commands(attr, nodes, in_document) =~= c1 + c2 + c3);
}

proof fn preparation_in_order(attr: WindowAttributes, nodes: CanvasNodes, control: NodeId, at: int)
    requires
        apart(attr, nodes),
        control == nodes.textarea && at == 20 || control == nodes.password && at == 40,
    ensures
        in_order(preparation(control), nodes, serving(attr, nodes), at, at + 11),
{
    reveal(in_order);
    hiding_names_are_distinct();
    reveal_strlit("autocomplete");
    reveal_strlit("autocapitalize");
    assert("autocomplete"@.len() == 12 && "autocapitalize"@.len() == 14);
    let p = preparation(control);
    assert(rank(p[0].action, nodes) == at && rank(p[1].action, nodes) == at + 1);
    assert(rank(p[2].action, nodes) == at + 2 && rank(p[3].action, nodes) == at + 3);
    assert(rank(p[4].action, nodes) == at + 4 && rank(p[5].action, nodes) == at + 5);
    assert(rank(p[6].action, nodes) == at + 6 && rank(p[7].action, nodes) == at + 7);
    assert(rank(p[8].action, nodes) == at + 8 && rank(p[9].action, nodes) == at + 9);
    assert(p[10].action is FindBody && rank(p[11].action, nodes) == at + 10);
    assert forall|i: int| 0 <= i < p.len() && !((#[trigger] p[i]).action is FindBody) implies rank(
        p[i].action,
        nodes,
    ) == (if i < 10 {
        at + i
    } else {
        at + 10
    }) by {}
}

proof fn creation_in_order(attr: WindowAttributes, nodes: CanvasNodes)
    requires
        apart(attr, nodes),
    ensures
        in_order(
            creation(nodes.textarea, nodes.password),
            nodes,
            serving(attr, nodes),
            5,
            60,
        ),
{
    let node = serving(attr, nodes);
    let m = control_elements(nodes.textarea, nodes.password);
    let t = preparation(nodes.textarea);
    let p = preparation(nodes.password);
    assert(in_order(m, nodes, node, 5, 20)) by {
        reveal(in_order);
    }
    preparation_in_order(attr, nodes, nodes.textarea, 20);
    preparation_in_order(attr, nodes, nodes.password, 40);
    widened(t, nodes, node, 20, 31, 40);
    widened(p, nodes, node, 40, 51, 60);
    in_order_concat(m, t, nodes, node, 5, 20, 40);
    in_order_concat(m + t, p, nodes, node, 5, 40, 60);
}

proof fn placement_in_order(attr: WindowAttributes, nodes: CanvasNodes)
    requires
        apart(attr, nodes),
    ensures
        in_order(
            placement_commands(attr, nodes.document, serving(attr, nodes)),
            nodes,
            serving(attr, nodes),
            61,
            67,
        ),
{
    let node = serving(attr, nodes);
    let c1 = placing(attr, node, Placement::InnerSize);
    let c2 = placing(attr, node, Placement::MinInnerSize);
    let c3 = placing(attr, node, Placement::MaxInnerSize);
    let c4 = placing(attr, node, Placement::Position);
    let c5 = screening(attr, nodes.document, node);
    let c6 = focusing(attr, node);
    assert(in_order(c1, nodes, node, 61, 62) && in_order(c2, nodes, node, 62, 63) && in_order(
        c3,
        nodes,
        node,
        63,
        64,
    ) && in_order(c4, nodes, node, 64, 65) && in_order(c5, nodes, node, 65, 66) && in_order(
        c6,
        nodes,
        node,
        66,
        67,
    )) by {
        reveal(in_order);
    }
    in_order_concat(c1, c2, nodes, node, 61, 62, 63);
    in_order_concat(c1 + c2, c3, nodes, node, 61, 63, 64);
    in_order_concat(c1 + c2 + c3, c4, nodes, node, 61, 64, 65);
    in_order_concat(c1 + c2 + c3 + c4, c5, nodes, node, 61, 65, 66);
    in_order_concat(c1 + c2 + c3 + c4 + c5, c6, nodes, node, 61, 66, 67);
}

/// Whatever is asked for, the steps of the making of a canvas come in one order, each once: the
/// element is made, put in the page and given its tab index; its style is obtained; the text
/// controls are made, prepared and put in the page, the text area first; the cursor is made; and
/// the canvas gets its sizes, its position, the full screen and the focus. Each step fails in its
/// own way.
pub proof fn a_canvas_is_made_step_by_step(
    attr: WindowAttributes,
    nodes: CanvasNodes,
    in_document: bool,
)
    requires
        apart(attr, nodes),
    ensures
        in_order(create_commands(attr, nodes, in_document), nodes, serving(attr, nodes), 0, 67),
{
    let node = serving(attr, nodes);
    let e = element_commands(attr, nodes, in_document);
    let s = style_commands(nodes.window, node);
    let k = creation(nodes.textarea, nodes.password);
    let c = cursor_commands(node);
    let q = placement_commands(attr, nodes.document, node);
    element_in_order(attr, nodes, in_document);
    assert(in_order(s, nodes, node, 3, 5)) by {
        reveal(in_order);
    }
    creation_in_order(attr, nodes);
    assert(in_order(c, nodes, node, 60, 61)) by {
        reveal(in_order);
    }
    placement_in_order(attr, nodes);
    in_order_concat(e, s, nodes, node, 0, 3, 5);
    in_order_concat(e + s, k, nodes, node, 0, 5, 60);
    in_order_concat(e + s + k, c, nodes, node, 0, 60, 61);
    in_order_concat(e + s + k + c, q, nodes, node, 0, 61, 67);
}

} // verus!
