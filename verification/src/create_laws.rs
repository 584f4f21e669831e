//! What holds of the making of a canvas.

use vstd::prelude::*;

use crate::canvas::{
    appending, appends, canvas_node, create_commands, cursor_commands, element_commands, focusing,
    indexing, making, placement_commands, placing, screening, searching, CanvasNodes,
    WindowAttributes,
};
use crate::command::{or_error, run, verdict, Action, Command, Failure, OnFailure, Placement};
use crate::common::style_commands;
use crate::ime::{control_elements, creation, preparation, ImeElement};
use crate::laws::the_first_failure_counts;
use crate::page::{
    apply, decimal, digits, is_text_control, perform, perform_concat, perform_one, perform_two,
    reads_as_number, Page,
};
use crate::text::ascii_lowercase;
use crate::types::NodeId;

verus! {

/// The page after a part that is one command or none.
proof fn perform_part(page: Page, part: Seq<Command<Seq<char>>>)
    requires
        part.len() <= 1,
    ensures
        perform(page, part) == if part.len() == 1 {
            apply(page, part[0].action)
        } else {
            page
        },
{
    if part.len() == 1 {
        assert(part =~= seq![part[0]]);
        perform_one(page, part[0]);
    }
}

/// A command acts on the page that those before it leave.
proof fn perform_step(page: Page, commands: Seq<Command<Seq<char>>>, k: int)
    requires
        0 <= k < commands.len(),
    ensures
        perform(page, commands.take(k + 1)) == apply(
            perform(page, commands.take(k)),
            commands[k].action,
        ),
{
    assert(commands.take(k + 1).drop_last() =~= commands.take(k));
}

/// The element cannot be seen or pointed at: it is a single pixel without color that stays where
/// it is.
pub open spec fn hidden(page: Page, node: NodeId) -> bool {
    &&& page.properties.contains_pair((node, "position"@), "fixed"@)
    &&& page.properties.contains_pair((node, "width"@), "1px"@)
    &&& page.properties.contains_pair((node, "height"@), "1px"@)
    &&& page.properties.contains_pair((node, "opacity"@), "0"@)
    &&& page.properties.contains_pair((node, "pointer-events"@), "none"@)
    &&& page.properties.contains_pair((node, "resize"@), "none"@)
    &&& page.properties.contains_pair((node, "overflow"@), "hidden"@)
}

/// The properties by which an element is hidden have different names: where two names are of one
/// length, they differ.
pub proof fn hiding_names_are_distinct()
    ensures
        "position"@.len() == 8 && "overflow"@.len() == 8 && "position"@ != "overflow"@,
        "height"@.len() == 6 && "resize"@.len() == 6 && "height"@ != "resize"@,
        "width"@.len() == 5 && "opacity"@.len() == 7 && "pointer-events"@.len() == 14,
{
    reveal_strlit("position");
    reveal_strlit("width");
    reveal_strlit("height");
    reveal_strlit("opacity");
    reveal_strlit("pointer-events");
    reveal_strlit("resize");
    reveal_strlit("overflow");
    assert("position"@[0] == 'p' && "overflow"@[0] == 'o');
    assert("height"@[0] == 'h' && "resize"@[0] == 'r');
}

/// Properties with those by which an element is hidden.
spec fn hiding(
    properties: Map<(NodeId, Seq<char>), Seq<char>>,
    node: NodeId,
) -> Map<(NodeId, Seq<char>), Seq<char>> {
    properties.insert((node, "position"@), "fixed"@).insert((node, "width"@), "1px"@).insert(
        (node, "height"@),
        "1px"@,
    ).insert((node, "opacity"@), "0"@).insert((node, "pointer-events"@), "none"@).insert(
        (node, "resize"@),
        "none"@,
    ).insert((node, "overflow"@), "hidden"@)
}

/// An element with the properties that hide it is hidden, and so is one that was hidden before.
proof fn hiding_hides(page: Page, node: NodeId, other: NodeId)
    ensures
        ({
            let after = Page { properties: hiding(page.properties, node), ..page };
            &&& hidden(after, node)
            &&& other != node && hidden(page, other) ==> hidden(after, other)
        }),
{
    hiding_names_are_distinct();
}

/// The names of attributes that are set when a canvas is made are in small letters, and different.
proof fn attribute_names()
    ensures
        ascii_lowercase("autocomplete"@) == "autocomplete"@,
        ascii_lowercase("autocapitalize"@) == "autocapitalize"@,
        ascii_lowercase("tabindex"@) == "tabindex"@,
        "autocomplete"@.len() == 12 && "autocapitalize"@.len() == 14,
        "tabindex"@.len() == 8 && "type"@.len() == 4,
{
    reveal_strlit("autocomplete");
    reveal_strlit("autocapitalize");
    reveal_strlit("tabindex");
    reveal_strlit("type");
    assert(ascii_lowercase("autocomplete"@) =~= "autocomplete"@);
    assert(ascii_lowercase("autocapitalize"@) =~= "autocapitalize"@);
    assert(ascii_lowercase("tabindex"@) =~= "tabindex"@);
}

/// The tags of the elements that are made are in small letters, and only those of the text
/// controls are tags of text controls.
proof fn tags()
    ensures
        ascii_lowercase("canvas"@) == "canvas"@,
        ascii_lowercase("textarea"@) == "textarea"@,
        ascii_lowercase("input"@) == "input"@,
        !is_text_control("canvas"@),
{
    reveal_strlit("canvas");
    reveal_strlit("textarea");
    reveal_strlit("input");
    assert("canvas"@.len() == 6 && "textarea"@.len() == 8 && "input"@.len() == 5);
    assert(ascii_lowercase("canvas"@) =~= "canvas"@);
    assert(ascii_lowercase("textarea"@) =~= "textarea"@);
    assert(ascii_lowercase("input"@) =~= "input"@);
}

/// The tab indices that are set are numbers.
proof fn tab_indices()
    ensures
        decimal(-1) == "-1"@,
        reads_as_number("0"@),
{
    reveal_strlit("-1");
    reveal_strlit("0");
    reveal_with_fuel(digits, 2);
    assert(digits(1) =~= seq!['1']);
    assert(decimal(-1) =~= "-1"@);
    assert("0"@[0] == '0');
}

/// Attributes with those that a new text control is given.
spec fn readying(
    attributes: Map<(NodeId, Seq<char>), Seq<char>>,
    node: NodeId,
) -> Map<(NodeId, Seq<char>), Seq<char>> {
    attributes.insert((node, "tabindex"@), "-1"@).insert((node, "autocomplete"@), "off"@).insert(
        (node, "autocapitalize"@),
        "off"@,
    )
}

/// The control is left out of keyboard navigation and does not complete or capitalize what is put
/// in.
pub open spec fn ready(page: Page, node: NodeId) -> bool {
    &&& page.attributes.contains_pair((node, "tabindex"@), "-1"@)
    &&& page.attributes.contains_pair((node, "autocomplete"@), "off"@)
    &&& page.attributes.contains_pair((node, "autocapitalize"@), "off"@)
}

/// A text control that was prepared is part of the page, and has the attributes and properties
/// that it is given. Nothing else has changed.
proof fn a_prepared_control_is_attached(page: Page, node: NodeId)
    requires
        page.focus != Some(node),
    ensures
        perform(page, preparation(node)) == (Page {
            attached: page.attached.insert(node),
            attributes: readying(page.attributes, node),
            properties: hiding(page.properties, node),
            ..page
        }),
{
    attribute_names();
    tab_indices();
    let p = preparation(node);
    perform_step(page, p, 0);
    perform_step(page, p, 1);
    perform_step(page, p, 2);
    perform_step(page, p, 3);
    perform_step(page, p, 4);
    perform_step(page, p, 5);
    perform_step(page, p, 6);
    perform_step(page, p, 7);
    perform_step(page, p, 8);
    perform_step(page, p, 9);
    perform_step(page, p, 10);
    perform_step(page, p, 11);
    assert(p.take(12) =~= p);
}

/// The elements of the text controls hold no text once they are made, and one of them is for
/// passwords.
proof fn elements_are_made(page: Page, textarea: NodeId, password: NodeId)
    ensures
        perform(page, control_elements(textarea, password)) == (Page {
            elements: page.elements.insert(textarea, "textarea"@).insert(password, "input"@),
            attributes: page.attributes.insert((password, "type"@), "password"@),
            values: page.values.insert(textarea, Seq::empty()).insert(password, Seq::empty()),
            ..page
        }),
{
    tags();
    let s = control_elements(textarea, password);
    perform_step(page, s, 0);
    perform_step(page, s, 1);
    perform_step(page, s, 2);
    assert(s.take(0) =~= Seq::empty());
    assert(s.take(3) =~= s);
}

/// The text controls that were made are part of the page, ready and hidden.
proof fn created_controls_are_attached(page: Page, textarea: NodeId, password: NodeId)
    requires
        textarea != password,
        page.focus != Some(textarea),
        page.focus != Some(password),
    ensures
        ({
            let after = perform(page, creation(textarea, password));
            &&& after == (Page {
                elements: page.elements.insert(textarea, "textarea"@).insert(password, "input"@),
                attached: page.attached.insert(textarea).insert(password),
                attributes: readying(
                    readying(
                        page.attributes.insert((password, "type"@), "password"@),
                        textarea,
                    ),
                    password,
                ),
                properties: hiding(hiding(page.properties, textarea), password),
                values: page.values.insert(textarea, Seq::empty()).insert(password, Seq::empty()),
                ..page
            })
            &&& hidden(after, textarea)
            &&& hidden(after, password)
        }),
{
    let s = control_elements(textarea, password);
    let made = perform(page, s);
    let middle = perform(made, preparation(textarea));
    elements_are_made(page, textarea, password);
    a_prepared_control_is_attached(made, textarea);
    a_prepared_control_is_attached(middle, password);
    hiding_hides(made, textarea, password);
    hiding_hides(middle, password, textarea);
    perform_concat(page, s, preparation(textarea));
    perform_concat(page, s + preparation(textarea), preparation(password));
}

/// Once a canvas was made, both text controls are part of the page, ready, hidden and without a
/// text, and one of them is for passwords. The canvas is part of the page where it was to be
/// appended, and has a tab index where it can take the focus. It has the focus where it is to be
/// active and takes it, as it does where it has a tab index, is part of the page and is not
/// barred. Every other text is as before.
pub proof fn a_new_canvas_is_in_the_page(
    page: Page,
    attr: WindowAttributes,
    nodes: CanvasNodes,
    in_document: bool,
)
    requires
        page.sound(),
        nodes.textarea != nodes.password,
        canvas_node(attr, nodes) != nodes.textarea,
        canvas_node(attr, nodes) != nodes.password,
        !page.attached.contains(nodes.textarea),
        !page.attached.contains(nodes.password),
        appends(attr, in_document) ==> !page.attached.contains(canvas_node(attr, nodes)),
    ensures
        ({
            let node = canvas_node(attr, nodes);
            let after = perform(page, create_commands(attr, nodes, in_document));
            let placed = if appends(attr, in_document) {
                page.attached.insert(node)
            } else {
                page.attached
            };
            &&& after.attached == placed.insert(nodes.textarea).insert(nodes.password)
            &&& attr.canvas is None ==> after.elements.contains_pair(node, "canvas"@)
            &&& after.elements.contains_pair(nodes.textarea, "textarea"@)
            &&& after.elements.contains_pair(nodes.password, "input"@)
            &&& after.attributes.contains_pair((nodes.password, "type"@), "password"@)
            &&& attr.focusable ==> after.attributes.contains_pair((node, "tabindex"@), "0"@)
            &&& ready(after, nodes.textarea)
            &&& ready(after, nodes.password)
            &&& hidden(after, nodes.textarea)
            &&& hidden(after, nodes.password)
            &&& after.values == page.values.insert(nodes.textarea, Seq::empty()).insert(
                nodes.password,
                Seq::empty(),
            )
            &&& after.focus == if attr.active && after.takes_focus(node) {
                Some(node)
            } else {
                page.focus
            }
            &&& attr.focusable && after.attached.contains(node) && !page.barred.contains(node)
                ==> after.takes_focus(node)
            &&& after.sound()
        }),
{
    attribute_names();
    tab_indices();
    let node = canvas_node(attr, nodes);
    let e = element_commands(attr, nodes, in_document);
    let s = style_commands(nodes.window, node);
    let k = creation(nodes.textarea, nodes.password);
    let c = cursor_commands(node);
    let q = placement_commands(attr, nodes.document, node);
    let placed = perform(page, e);
    let controlled = perform(placed, k);
    the_element_is_placed(page, attr, nodes, in_document);
    the_style_changes_nothing(placed, nodes.window, node);
    created_controls_are_attached(placed, nodes.textarea, nodes.password);
    perform_part(controlled, c);
    placement_moves_the_focus(controlled, attr, nodes.document, node);
    perform_concat(page, e, s);
    perform_concat(page, e + s, k);
    perform_concat(page, e + s + k, c);
    perform_concat(page, e + s + k + c, q);
}

/// The canvas element is part of the page where it was to be appended, and has a tab index where
/// it can take the focus.
proof fn the_element_is_placed(
    page: Page,
    attr: WindowAttributes,
    nodes: CanvasNodes,
    in_document: bool,
)
    requires
        page.sound(),
        appends(attr, in_document) ==> !page.attached.contains(canvas_node(attr, nodes)),
    ensures
        perform(page, element_commands(attr, nodes, in_document)) == (Page {
            elements: if attr.canvas is None {
                page.elements.insert(nodes.canvas, "canvas"@)
            } else {
                page.elements
            },
            attached: if appends(attr, in_document) {
                page.attached.insert(canvas_node(attr, nodes))
            } else {
                page.attached
            },
            attributes: if attr.focusable {
                page.attributes.insert((canvas_node(attr, nodes), "tabindex"@), "0"@)
            } else {
                page.attributes
            },
            ..page
        }),
{
    attribute_names();
    tags();
    let c1 = making(attr, nodes);
    let c2 = searching(attr, in_document);
    let c3 = appending(attr, nodes, in_document);
    let c4 = indexing(attr, nodes);
    perform_concat(page, c1, c2);
    perform_concat(page, c1 + c2, c3);
    perform_concat(page, c1 + c2 + c3, c4);
    let made = perform(page, c1);
    perform_part(page, c1);
    perform_part(made, c2);
    perform_part(made, c3);
    perform_part(perform(made, c3), c4);
}

/// To obtain the style of the canvas leaves the page as it is.
proof fn the_style_changes_nothing(page: Page, window: NodeId, node: NodeId)
    ensures
        perform(page, style_commands(window, node)) == page,
{
    let s = style_commands(window, node);
    assert(s =~= seq![s[0], s[1]]);
    perform_two(page, s[0], s[1]);
}

/// A size or position leaves everything but the properties of the canvas as it is.
proof fn placing_hides_nothing(page: Page, attr: WindowAttributes, node: NodeId, what: Placement)
    ensures
        ({
            let after = perform(page, placing(attr, node, what));
            &&& after == (Page { properties: after.properties, ..page })
            &&& forall|other: NodeId|
                other != node && hidden(page, other) ==> #[trigger] hidden(after, other)
        }),
{
    perform_part(page, placing(attr, node, what));
}

/// Sizes, the position and the full screen leave everything but the properties of the canvas as it
/// is; an active canvas gets the focus if it takes it.
proof fn placement_moves_the_focus(
    page: Page,
    attr: WindowAttributes,
    document: NodeId,
    node: NodeId,
)
    ensures
        ({
            let after = perform(page, placement_commands(attr, document, node));
            &&& after == (Page {
                properties: after.properties,
                focus: if attr.active && page.takes_focus(node) {
                    Some(node)
                } else {
                    page.focus
                },
                ..page
            })
            &&& forall|other: NodeId|
                other != node && hidden(page, other) ==> #[trigger] hidden(after, other)
        }),
{
    let c1 = placing(attr, node, Placement::InnerSize);
    let c2 = placing(attr, node, Placement::MinInnerSize);
    let c3 = placing(attr, node, Placement::MaxInnerSize);
    let c4 = placing(attr, node, Placement::Position);
    let c5 = screening(attr, document, node);
    let c6 = focusing(attr, node);
    let p1 = perform(page, c1);
    let p2 = perform(p1, c2);
    let p3 = perform(p2, c3);
    let p4 = perform(p3, c4);
    placing_hides_nothing(page, attr, node, Placement::InnerSize);
    placing_hides_nothing(p1, attr, node, Placement::MinInnerSize);
    placing_hides_nothing(p2, attr, node, Placement::MaxInnerSize);
    placing_hides_nothing(p3, attr, node, Placement::Position);
    perform_part(p4, c5);
    perform_part(p4, c6);
    perform_concat(page, c1, c2);
    perform_concat(page, c1 + c2, c3);
    perform_concat(page, c1 + c2 + c3, c4);
    perform_concat(page, c1 + c2 + c3 + c4, c5);
    perform_concat(page, c1 + c2 + c3 + c4 + c5, c6);
    assert forall|other: NodeId| other != node && hidden(page, other) implies #[trigger] hidden(
        perform(page, placement_commands(attr, document, node)),
        other,
    ) by {
        assert(hidden(p1, other));
        assert(hidden(p2, other));
        assert(hidden(p3, other));
        assert(hidden(p4, other));
    }
}

/// To take the text controls out of the page undoes that they were put there: the page is left
/// with the nodes that it had, and with the canvas where that was to be appended. Neither control
/// has the focus.
pub proof fn removal_undoes_the_making_of_the_controls(
    page: Page,
    attr: WindowAttributes,
    nodes: CanvasNodes,
    in_document: bool,
    ime_element: ImeElement,
)
    requires
        page.sound(),
        nodes.textarea != nodes.password,
        canvas_node(attr, nodes) != nodes.textarea,
        canvas_node(attr, nodes) != nodes.password,
        ime_element.textarea == nodes.textarea,
        ime_element.password == nodes.password,
        !page.attached.contains(nodes.textarea),
        !page.attached.contains(nodes.password),
        appends(attr, in_document) ==> !page.attached.contains(canvas_node(attr, nodes)),
    ensures
        ({
            let made = perform(page, create_commands(attr, nodes, in_document));
            let after = perform(made, ime_element.remove_commands());
            &&& after.attached == if appends(attr, in_document) {
                page.attached.insert(canvas_node(attr, nodes))
            } else {
                page.attached
            }
            &&& !(after.focus matches Some(node) && ime_element.owns(node))
        }),
{
    let made = perform(page, create_commands(attr, nodes, in_document));
    let after = perform(made, ime_element.remove_commands());
    a_new_canvas_is_in_the_page(page, attr, nodes, in_document);
    let r = ime_element.remove_commands();
    assert(r =~= seq![r[0], r[1]]);
    perform_two(made, r[0], r[1]);
    assert(after.attached =~= if appends(attr, in_document) {
        page.attached.insert(canvas_node(attr, nodes))
    } else {
        page.attached
    });
}

/// The failure is one of those that the making of a canvas knows.
pub open spec fn known_failure(failure: Failure<Seq<char>>) -> bool {
    match failure {
        Failure::Os(message) => {
            ||| message == "Failed to create canvas element"@
            ||| message == "Failed to set a tabindex"@
            ||| message == "Failed to create IME textarea"@
            ||| message == "Failed to create IME password input"@
            ||| message == "Failed to append IME element"@
        },
        Failure::Panic(message) => {
            ||| message == "Failed to get body from document"@
            ||| message == "Failed to append canvas to body"@
            ||| message == "Failed to obtain computed style"@
            ||| message == "Invalid pseudo-element"@
        },
    }
}

/// A failure of the command is of no account or is known.
spec fn fails_as_known(command: Command<Seq<char>>) -> bool {
    match command.on_failure {
        OnFailure::Ignore => true,
        OnFailure::Error(message) => known_failure(Failure::Os(message)),
        OnFailure::Panic(message) => known_failure(Failure::Panic(message)),
    }
}

/// A failure of each command is of no account or is known.
#[verifier::opaque]
spec fn all_fail_as_known(commands: Seq<Command<Seq<char>>>) -> bool {
    forall|i: int| 0 <= i < commands.len() ==> fails_as_known(#[trigger] commands[i])
}

proof fn all_fail_as_known_concat(first: Seq<Command<Seq<char>>>, second: Seq<Command<Seq<char>>>)
    requires
        all_fail_as_known(first),
        all_fail_as_known(second),
    ensures
        all_fail_as_known(first + second),
{
    reveal(all_fail_as_known);
    assert forall|i: int| 0 <= i < (first + second).len() implies fails_as_known(
        #[trigger] (first + second)[i],
    ) by {
        if i < first.len() {
            assert(fails_as_known(first[i]));
        } else {
            assert(fails_as_known(second[i - first.len()]));
        }
    }
}

proof fn part_fails_as_known(part: Seq<Command<Seq<char>>>)
    requires
        part.len() <= 1,
        part.len() == 1 ==> fails_as_known(part[0]),
    ensures
        all_fail_as_known(part),
{
    reveal(all_fail_as_known);
}

proof fn element_fails_as_known(attr: WindowAttributes, nodes: CanvasNodes, in_document: bool)
    ensures
        all_fail_as_known(element_commands(attr, nodes, in_document)),
{
    let made = making(attr, nodes);
    let searched = made + searching(attr, in_document);
    let appended = searched + appending(attr, nodes, in_document);
    part_fails_as_known(made);
    part_fails_as_known(searching(attr, in_document));
    part_fails_as_known(appending(attr, nodes, in_document));
    part_fails_as_known(indexing(attr, nodes));
    all_fail_as_known_concat(made, searching(attr, in_document));
    all_fail_as_known_concat(searched, appending(attr, nodes, in_document));
    all_fail_as_known_concat(appended, indexing(attr, nodes));
}

proof fn preparation_fails_as_known(node: NodeId)
    ensures
        all_fail_as_known(preparation(node)),
{
    reveal(all_fail_as_known);
}

proof fn creation_fails_as_known(textarea: NodeId, password: NodeId)
    ensures
        all_fail_as_known(creation(textarea, password)),
{
    let head = control_elements(textarea, password);
    assert(all_fail_as_known(head)) by {
        reveal(all_fail_as_known);
    }
    preparation_fails_as_known(textarea);
    preparation_fails_as_known(password);
    all_fail_as_known_concat(head, preparation(textarea));
    all_fail_as_known_concat(head + preparation(textarea), preparation(password));
}

proof fn placement_fails_as_known(attr: WindowAttributes, document: NodeId, node: NodeId)
    ensures
        all_fail_as_known(placement_commands(attr, document, node)),
{
    reveal(all_fail_as_known);
    assert forall|i: int| 0 <= i < placement_commands(attr, document, node).len() implies (
    #[trigger] placement_commands(attr, document, node)[i]).on_failure is Ignore by {}
}

proof fn create_fails_as_known(attr: WindowAttributes, nodes: CanvasNodes, in_document: bool)
    ensures
        all_fail_as_known(create_commands(attr, nodes, in_document)),
{
    let node = canvas_node(attr, nodes);
    let e = element_commands(attr, nodes, in_document);
    let s = style_commands(nodes.window, node);
    let k = creation(nodes.textarea, nodes.password);
    let c = cursor_commands(node);
    element_fails_as_known(attr, nodes, in_document);
    assert(all_fail_as_known(s)) by {
        reveal(all_fail_as_known);
    }
    creation_fails_as_known(nodes.textarea, nodes.password);
    placement_fails_as_known(attr, nodes.document, node);
    all_fail_as_known_concat(e, s);
    all_fail_as_known_concat(e + s, k);
    part_fails_as_known(c);
    all_fail_as_known_concat(e + s + k, c);
    all_fail_as_known_concat(e + s + k + c, placement_commands(attr, nodes.document, node));
}

/// The first command of the making of a canvas, where an element is to be made.
proof fn the_element_comes_first(attr: WindowAttributes, nodes: CanvasNodes, in_document: bool)
    requires
        attr.canvas is None,
    ensures
        create_commands(attr, nodes, in_document).len() > 0,
        create_commands(attr, nodes, in_document)[0] == or_error(
            Action::CreateElement { node: nodes.canvas, tag: "canvas"@ },
            "Failed to create canvas element"@,
        ),
{
}

/// The making of a canvas goes through exactly where every command succeeds whose failure is of
/// account, and every failure with which it ends is a known one. Where the element cannot be
/// made, nothing else is tried.
pub proof fn a_canvas_fails_as_known(
    attr: WindowAttributes,
    nodes: CanvasNodes,
    in_document: bool,
    results: Seq<bool>,
)
    requires
        results.len() == create_commands(attr, nodes, in_document).len(),
    ensures
        run(create_commands(attr, nodes, in_document), results) matches Err(failure)
            ==> known_failure(failure),
        run(create_commands(attr, nodes, in_document), results) is Ok <==> forall|i: int|
            0 <= i < results.len() ==> #[trigger] results[i] || create_commands(
                attr,
                nodes,
                in_document,
            )[i].on_failure is Ignore,
        attr.canvas is None && !results[0] ==> run(
            create_commands(attr, nodes, in_document),
            results,
        ) == Err::<(), Failure<Seq<char>>>(Failure::Os("Failed to create canvas element"@)),
{
    let commands = create_commands(attr, nodes, in_document);
    create_fails_as_known(attr, nodes, in_document);
    the_first_failure_counts(commands, results);
    if let Err(failure) = run(commands, results) {
        let i = choose|i: int|
            0 <= i < commands.len() && verdict(
                (#[trigger] commands[i]).on_failure,
                results[i],
            ) == Some(failure);
        reveal(all_fail_as_known);
        assert(fails_as_known(commands[i]));
    }
    if run(commands, results) is Ok {
        assert forall|i: int| 0 <= i < results.len() implies #[trigger] results[i]
            || commands[i].on_failure is Ignore by {
            assert(verdict(commands[i].on_failure, results[i]) is None);
        }
    }
    if attr.canvas is None {
        the_element_comes_first(attr, nodes, in_document);
    }
}

} // verus!
