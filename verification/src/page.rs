//! What a page holds, as far as the commands of the canvas change it.

use vstd::prelude::*;

use crate::canvas::at_most;
use crate::command::{Action, Command, Declaration};
use crate::text::{ascii_lowercase, utf16_len_u32};
use crate::types::NodeId;

verus! {

/// What a page holds of the nodes that commands name.
pub struct Page {
    /// The tags of the elements that were made.
    pub elements: Map<NodeId, Seq<char>>,
    /// The nodes that are part of the page.
    pub attached: Set<NodeId>,
    /// The attributes of its elements, with their names in small letters.
    pub attributes: Map<(NodeId, Seq<char>), Seq<char>>,
    /// The properties that its elements carry themselves, as far as they are known.
    pub properties: Map<(NodeId, Seq<char>), Seq<char>>,
    /// The texts that its text controls give back.
    pub values: Map<NodeId, Seq<char>>,
    /// The start, the end and the direction of what is selected in its text controls. Once a text
    /// is written, nothing is known of it until something is selected.
    pub selections: Map<NodeId, (u32, u32, Seq<char>)>,
    /// The element that has the focus.
    pub focus: Option<NodeId>,
    /// The elements that take the focus by themselves, besides text controls.
    pub inviting: Set<NodeId>,
    /// The elements that no focus reaches, such as those that are not laid out.
    pub barred: Set<NodeId>,
    /// A selection can be without a direction; where it cannot, it is a forward one instead.
    pub undirected: bool,
}

/// The digits of a number.
pub open spec fn digits(n: nat) -> Seq<char>
    decreases n,
{
    let last = ('0' as u32 + n % 10) as char;
    if n < 10 {
        seq![last]
    } else {
        digits(n / 10).push(last)
    }
}

/// A number in decimal.
pub open spec fn decimal(n: int) -> Seq<char> {
    if n < 0 {
        seq!['-'] + digits((-n) as nat)
    } else {
        digits(n as nat)
    }
}

/// White space as pages count it.
pub open spec fn is_space(c: char) -> bool {
    c == ' ' || c == '\t' || c == '\n' || c == '\r' || c == '\x0C'
}

/// A page reads the text as a whole number: after white space and at most one sign there is a
/// digit.
pub open spec fn reads_as_number(text: Seq<char>) -> bool {
    exists|k: int|
        {
            &&& 0 <= k < text.len()
            &&& '0' <= #[trigger] text[k] <= '9'
            &&& k > 0 ==> text[k - 1] == '+' || text[k - 1] == '-' || is_space(text[k - 1])
            &&& forall|j: int| 0 <= j < k - 1 ==> is_space(#[trigger] text[j])
        }
}

/// The tag is one of a text control. The only input elements are password fields.
pub open spec fn is_text_control(tag: Seq<char>) -> bool {
    tag == "textarea"@ || tag == "input"@
}

/// The character ends a line.
pub open spec fn is_break(c: char) -> bool {
    c == '\n' || c == '\r'
}

/// A text as a text area gives it back: every line ends with a line feed alone.
pub open spec fn line_fed(text: Seq<char>) -> Seq<char>
    decreases text.len(),
{
    if text.len() == 0 {
        text
    } else if text.len() >= 2 && text[text.len() - 2] == '\r' && text.last() == '\n' {
        line_fed(text.take(text.len() - 2)).push('\n')
    } else if text.last() == '\r' {
        line_fed(text.drop_last()).push('\n')
    } else {
        line_fed(text.drop_last()).push(text.last())
    }
}

/// A text as a password field gives it back: in one line.
pub open spec fn unbroken(text: Seq<char>) -> Seq<char> {
    text.filter(|c: char| !is_break(c))
}

/// The properties but for those of one node.
pub open spec fn without(
    properties: Map<(NodeId, Seq<char>), Seq<char>>,
    node: NodeId,
) -> Map<(NodeId, Seq<char>), Seq<char>> {
    Map::new(
        |key: (NodeId, Seq<char>)| properties.dom().contains(key) && key.0 != node,
        |key: (NodeId, Seq<char>)| properties[key],
    )
}

impl Page {
    /// The focus is in the page.
    pub open spec fn sound(self) -> bool {
        self.focus matches Some(node) ==> self.attached.contains(node)
    }

    /// What a control gives back of a text that is written to it.
    pub open spec fn kept(self, node: NodeId, text: Seq<char>) -> Seq<char> {
        if self.elements.contains_pair(node, "textarea"@) {
            line_fed(text)
        } else if self.elements.contains_pair(node, "input"@) {
            unbroken(text)
        } else {
            text
        }
    }

    /// The direction that a selection has once one is asked for.
    pub open spec fn directed(self, direction: Seq<char>) -> Seq<char> {
        if direction == "backward"@ || direction == "forward"@ {
            direction
        } else if self.undirected {
            "none"@
        } else {
            "forward"@
        }
    }

    /// The element gets the focus where it is asked to take it. Any other element leaves the focus
    /// where it is, which is no failure.
    pub open spec fn takes_focus(self, node: NodeId) -> bool {
        &&& self.attached.contains(node)
        &&& !self.barred.contains(node)
        &&& {
            ||| self.inviting.contains(node)
            ||| self.elements.dom().contains(node) && is_text_control(self.elements[node])
            ||| self.attributes.dom().contains((node, "tabindex"@)) && reads_as_number(
                self.attributes[(node, "tabindex"@)],
            )
        }
    }

    /// The focus once a node has left its place.
    pub open spec fn focus_without(self, node: NodeId) -> Option<NodeId> {
        if self.focus == Some(node) {
            None
        } else {
            self.focus
        }
    }
}

/// The page after an action that succeeded.
pub open spec fn apply(page: Page, action: Action<Seq<char>>) -> Page {
    match action {
        Action::CreateElement { node, tag } => Page {
            elements: page.elements.insert(node, ascii_lowercase(tag)),
            values: if is_text_control(ascii_lowercase(tag)) {
                page.values.insert(node, Seq::empty())
            } else {
                page.values
            },
            ..page
        },
        Action::AppendToBody { node } => Page {
            attached: page.attached.insert(node),
            focus: page.focus_without(node),
            ..page
        },
        Action::RemoveNode { node } => Page {
            attached: page.attached.remove(node),
            focus: page.focus_without(node),
            ..page
        },
        Action::SetInputType { node, kind } => Page {
            attributes: page.attributes.insert((node, "type"@), kind),
            ..page
        },
        Action::SetTabIndex { node, index } => Page {
            attributes: page.attributes.insert((node, "tabindex"@), decimal(index as int)),
            ..page
        },
        Action::SetAttribute { node, name, value } => Page {
            attributes: page.attributes.insert((node, ascii_lowercase(name)), value),
            ..page
        },
        Action::RemoveAttribute { node, name } => Page {
            attributes: page.attributes.remove((node, ascii_lowercase(name))),
            ..page
        },
        Action::SetProperty { style: Declaration::Inline(node), property, value } => Page {
            properties: page.properties.insert((node, property), value),
            ..page
        },
        Action::RemoveProperty { style: Declaration::Inline(node), property } => Page {
            properties: page.properties.remove((node, property)),
            ..page
        },
        Action::SetValue { node, value } => Page {
            values: page.values.insert(node, page.kept(node, value)),
            selections: page.selections.remove(node),
            ..page
        },
        Action::SetSelectionRange { node, start, end, direction } => {
            let end = if page.values.dom().contains(node) {
                at_most(end, utf16_len_u32(page.values[node]))
            } else {
                end
            };
            Page {
                selections: page.selections.insert(
                    node,
                    (at_most(start, end), end, page.directed(direction)),
                ),
                ..page
            }
        },
        Action::Focus { node } => Page {
            focus: if page.takes_focus(node) {
                Some(node)
            } else {
                page.focus
            },
            ..page
        },
        // A size or position is given by properties that are up to whoever acts.
        Action::Place { node, .. } => Page { properties: without(page.properties, node), ..page },
        Action::Resize { node, .. } => Page { properties: without(page.properties, node), ..page },
        _ => page,
    }
}

/// The page after commands that were carried out in order and all succeeded.
pub open spec fn perform(page: Page, commands: Seq<Command<Seq<char>>>) -> Page
    decreases commands.len(),
{
    if commands.len() == 0 {
        page
    } else {
        apply(perform(page, commands.drop_last()), commands.last().action)
    }
}

/// Commands that follow others act on the page that those leave.
pub proof fn perform_concat(
    page: Page,
    first: Seq<Command<Seq<char>>>,
    second: Seq<Command<Seq<char>>>,
)
    ensures
        perform(page, first + second) == perform(perform(page, first), second),
    decreases second.len(),
{
    if second.len() == 0 {
        assert(first + second =~= first);
    } else {
        assert((first + second).drop_last() =~= first + second.drop_last());
        perform_concat(page, first, second.drop_last());
    }
}

/// The page after one command.
pub proof fn perform_one(page: Page, command: Command<Seq<char>>)
    ensures
        perform(page, seq![command]) == apply(page, command.action),
{
    assert(seq![command].drop_last() =~= Seq::empty());
    reveal_with_fuel(perform, 2);
}

/// The page after two commands.
pub proof fn perform_two(page: Page, first: Command<Seq<char>>, second: Command<Seq<char>>)
    ensures
        perform(page, seq![first, second]) == apply(apply(page, first.action), second.action),
{
    assert(seq![first, second] =~= seq![first] + seq![second]);
    perform_concat(page, seq![first], seq![second]);
    perform_one(page, first);
    perform_one(apply(page, first.action), second);
}

/// A control that is emptied is empty.
pub proof fn nothing_is_kept_of_nothing(page: Page, node: NodeId)
    ensures
        page.kept(node, Seq::empty()) == Seq::<char>::empty(),
{
    reveal(Seq::filter);
    assert(unbroken(Seq::empty()) =~= Seq::empty());
}

proof fn line_feeds_are_kept(text: Seq<char>)
    requires
        forall|i: int| 0 <= i < text.len() ==> #[trigger] text[i] != '\r',
    ensures
        line_fed(text) == text,
    decreases text.len(),
{
    if text.len() > 0 {
        assert forall|i: int| 0 <= i < text.drop_last().len() implies #[trigger] text.drop_last()[i]
            != '\r' by {
            assert(text[i] != '\r');
        }
        line_feeds_are_kept(text.drop_last());
        assert(text[text.len() - 1] != '\r');
        if text.len() >= 2 {
            assert(text[text.len() - 2] != '\r');
        }
        assert(text.drop_last().push(text.last()) =~= text);
    }
}

proof fn one_line_is_kept(text: Seq<char>)
    requires
        forall|i: int| 0 <= i < text.len() ==> !is_break(#[trigger] text[i]),
    ensures
        unbroken(text) == text,
    decreases text.len(),
{
    reveal(Seq::filter);
    if text.len() > 0 {
        assert forall|i: int| 0 <= i < text.drop_last().len() implies !is_break(
            #[trigger] text.drop_last()[i],
        ) by {
            assert(!is_break(text[i]));
        }
        one_line_is_kept(text.drop_last());
        assert(!is_break(text[text.len() - 1]));
        assert(text.drop_last().push(text.last()) =~= text);
    } else {
        assert(unbroken(text) =~= text);
    }
}

/// A control keeps every text of one line as it is, and a text area keeps line feeds, too.
pub proof fn ordinary_text_is_kept(page: Page, node: NodeId, text: Seq<char>)
    ensures
        (forall|i: int| 0 <= i < text.len() ==> !is_break(#[trigger] text[i])) ==> page.kept(
            node,
            text,
        ) == text,
        page.elements.contains_pair(node, "textarea"@) && (forall|i: int|
            0 <= i < text.len() ==> #[trigger] text[i] != '\r') ==> page.kept(node, text) == text,
{
    if forall|i: int| 0 <= i < text.len() ==> #[trigger] text[i] != '\r' {
        line_feeds_are_kept(text);
    }
    if forall|i: int| 0 <= i < text.len() ==> !is_break(#[trigger] text[i]) {
        one_line_is_kept(text);
        assert forall|i: int| 0 <= i < text.len() implies #[trigger] text[i] != '\r' by {
            assert(!is_break(text[i]));
        }
        line_feeds_are_kept(text);
    }
}

} // verus!
