//! What the canvas asks of the page, as data.
//!
//! The canvas decides, and whoever holds the page acts: a decision is a list of commands, each an
//! action and what its failure means. A [`Script`] hands the commands out one by one and takes
//! the result of each.

use vstd::prelude::*;

use crate::types::{NodeId, PhysicalSize, WindowId};

verus! {

/// A style declaration of an element.
#[derive(Clone, Copy, PartialEq, Eq, Debug, Structural)]
pub enum Declaration {
    /// The resolved style, which is read.
    Computed(NodeId),
    /// The element's own style, which is written.
    Inline(NodeId),
}

/// A size or position of the window's attributes. The value is held by whoever acts; it is a
/// pair of floating-point numbers.
#[derive(Clone, Copy, PartialEq, Eq, Debug, Structural)]
pub enum Placement {
    InnerSize,
    MinInnerSize,
    MaxInnerSize,
    Position,
}

/// One action on the page. `S` is the type of its texts: `String` where the program runs and
/// `Seq<char>` in contracts.
#[derive(PartialEq, Eq, Debug)]
pub enum Action<S> {
    /// Creates an element, known as `node` from then on.
    CreateElement { node: NodeId, tag: S },
    /// Looks for the document's body; fails where there is none.
    FindBody,
    /// Makes the node the last child of the body.
    AppendToBody { node: NodeId },
    /// Takes the node out of the page.
    RemoveNode { node: NodeId },
    /// Sets the type of an input element.
    SetInputType { node: NodeId, kind: S },
    SetTabIndex { node: NodeId, index: i32 },
    SetAttribute { node: NodeId, name: S, value: S },
    RemoveAttribute { node: NodeId, name: S },
    /// Asks the window for the resolved style of the element.
    QueryComputedStyle { window: NodeId, node: NodeId },
    /// Takes the resolved style that was asked for; fails where there is none.
    TakeComputedStyle { node: NodeId },
    ReadProperty { style: Declaration, property: S },
    SetProperty { style: Declaration, property: S, value: S },
    RemoveProperty { style: Declaration, property: S },
    /// Sets the text of a text control.
    SetValue { node: NodeId, value: S },
    /// Selects a range of UTF-16 code units in a text control.
    SetSelectionRange { node: NodeId, start: u32, end: u32, direction: S },
    Focus { node: NodeId },
    RequestPointerLock { node: NodeId },
    ExitPointerLock { document: NodeId },
    RequestFullscreen { document: NodeId, node: NodeId },
    ExitFullscreen { document: NodeId, node: NodeId },
    /// Makes what sets the cursor over the canvas.
    MakeCursor { node: NodeId },
    /// Gives the canvas a size or position of the window's attributes.
    Place { node: NodeId, what: Placement },
    /// Gives the canvas a size in device pixels.
    Resize { node: NodeId, size: PhysicalSize },
    /// Has the resize observer report the size; fails exactly where the canvas is not observed.
    NotifyResize { observed: bool },
    /// Sends the window's event of a new size.
    SendResized { id: WindowId, size: PhysicalSize },
    RemovePointerListeners,
    RequestAnimationFrame,
    CancelAnimationFrame,
}

/// What it means that an action failed.
#[derive(PartialEq, Eq, Debug)]
pub enum OnFailure<S> {
    /// Nothing: the next command is carried out.
    Ignore,
    /// The operation ends with an error that says this.
    Error(S),
    /// The program cannot go on, and says this.
    Panic(S),
}

/// An action with what its failure means.
#[derive(PartialEq, Eq, Debug)]
pub struct Command<S> {
    pub action: Action<S>,
    pub on_failure: OnFailure<S>,
}

/// How an operation ended that did not go through.
#[derive(PartialEq, Eq, Debug)]
pub enum Failure<S> {
    /// An error of the operating system, here of the browser.
    Os(S),
    /// A condition was not met that the operation takes for granted.
    Panic(S),
}

impl View for Action<String> {
    type V = Action<Seq<char>>;

    open spec fn view(&self) -> Action<Seq<char>> {
        match *self {
            Action::CreateElement { node, tag } => Action::CreateElement { node, tag: tag@ },
            Action::FindBody => Action::FindBody,
            Action::AppendToBody { node } => Action::AppendToBody { node },
            Action::RemoveNode { node } => Action::RemoveNode { node },
            Action::SetInputType { node, kind } => Action::SetInputType { node, kind: kind@ },
            Action::SetTabIndex { node, index } => Action::SetTabIndex { node, index },
            Action::SetAttribute { node, name, value } => Action::SetAttribute {
                node,
                name: name@,
                value: value@,
            },
            Action::RemoveAttribute { node, name } => Action::RemoveAttribute { node, name: name@ },
            Action::QueryComputedStyle { window, node } => Action::QueryComputedStyle {
                window,
                node,
            },
            Action::TakeComputedStyle { node } => Action::TakeComputedStyle { node },
            Action::ReadProperty { style, property } => Action::ReadProperty {
                style,
                property: property@,
            },
            Action::SetProperty { style, property, value } => Action::SetProperty {
                style,
                property: property@,
                value: value@,
            },
            Action::RemoveProperty { style, property } => Action::RemoveProperty {
                style,
                property: property@,
            },
            Action::SetValue { node, value } => Action::SetValue { node, value: value@ },
            Action::SetSelectionRange { node, start, end, direction } => Action::SetSelectionRange {
                node,
                start,
                end,
                direction: direction@,
            },
            Action::Focus { node } => Action::Focus { node },
            Action::RequestPointerLock { node } => Action::RequestPointerLock { node },
            Action::ExitPointerLock { document } => Action::ExitPointerLock { document },
            Action::RequestFullscreen { document, node } => Action::RequestFullscreen {
                document,
                node,
            },
            Action::ExitFullscreen { document, node } => Action::ExitFullscreen { document, node },
            Action::MakeCursor { node } => Action::MakeCursor { node },
            Action::Place { node, what } => Action::Place { node, what },
            Action::Resize { node, size } => Action::Resize { node, size },
            Action::NotifyResize { observed } => Action::NotifyResize { observed },
            Action::SendResized { id, size } => Action::SendResized { id, size },
            Action::RemovePointerListeners => Action::RemovePointerListeners,
            Action::RequestAnimationFrame => Action::RequestAnimationFrame,
            Action::CancelAnimationFrame => Action::CancelAnimationFrame,
        }
    }
}

impl View for OnFailure<String> {
    type V = OnFailure<Seq<char>>;

    open spec fn view(&self) -> OnFailure<Seq<char>> {
        match *self {
            OnFailure::Ignore => OnFailure::Ignore,
            OnFailure::Error(message) => OnFailure::Error(message@),
            OnFailure::Panic(message) => OnFailure::Panic(message@),
        }
    }
}

impl View for Command<String> {
    type V = Command<Seq<char>>;

    open spec fn view(&self) -> Command<Seq<char>> {
        Command { action: self.action@, on_failure: self.on_failure@ }
    }
}

impl View for Failure<String> {
    type V = Failure<Seq<char>>;

    open spec fn view(&self) -> Failure<Seq<char>> {
        match *self {
            Failure::Os(message) => Failure::Os(message@),
            Failure::Panic(message) => Failure::Panic(message@),
        }
    }
}

/// The commands of a list, with their texts as sequences of characters.
pub open spec fn listing(commands: Seq<Command<String>>) -> Seq<Command<Seq<char>>> {
    commands.map_values(|c: Command<String>| c@)
}

/// A command whose failure is of no account.
pub open spec fn attempt(action: Action<Seq<char>>) -> Command<Seq<char>> {
    Command { action, on_failure: OnFailure::Ignore }
}

/// A command whose failure ends the operation with an error.
pub open spec fn or_error(action: Action<Seq<char>>, message: Seq<char>) -> Command<Seq<char>> {
    Command { action, on_failure: OnFailure::Error(message) }
}

/// A command whose failure the program does not survive.
pub open spec fn or_panic(action: Action<Seq<char>>, message: Seq<char>) -> Command<Seq<char>> {
    Command { action, on_failure: OnFailure::Panic(message) }
}

/// What a command's result comes to: nothing, or the failure that ends the operation.
pub open spec fn verdict(on_failure: OnFailure<Seq<char>>, succeeded: bool) -> Option<
    Failure<Seq<char>>,
> {
    if succeeded {
        None
    } else {
        match on_failure {
            OnFailure::Ignore => None,
            OnFailure::Error(message) => Some(Failure::Os(message)),
            OnFailure::Panic(message) => Some(Failure::Panic(message)),
        }
    }
}

/// How a list of commands ends where they are carried out in order and the results are
/// `results`: with the failure of the first command whose failure is of account.
pub open spec fn run(commands: Seq<Command<Seq<char>>>, results: Seq<bool>) -> Result<
    (),
    Failure<Seq<char>>,
>
    decreases commands.len(),
{
    if commands.len() == 0 || results.len() == 0 {
        Ok(())
    } else {
        match verdict(commands[0].on_failure, results[0]) {
            Some(failure) => Err(failure),
            None => run(commands.drop_first(), results.drop_first()),
        }
    }
}

impl Command<String> {
    pub fn attempt(action: Action<String>) -> (r: Self)
        ensures
            r@ == attempt(action@),
    {
        Command { action, on_failure: OnFailure::Ignore }
    }

    pub fn or_error(action: Action<String>, message: &str) -> (r: Self)
        ensures
            r@ == or_error(action@, message@),
    {
        Command { action, on_failure: OnFailure::Error(message.to_owned()) }
    }

    pub fn or_panic(action: Action<String>, message: &str) -> (r: Self)
        ensures
            r@ == or_panic(action@, message@),
    {
        Command { action, on_failure: OnFailure::Panic(message.to_owned()) }
    }
}

/// Commands that are being carried out, in order.
#[derive(PartialEq, Eq, Debug)]
pub struct Script {
    pub commands: Vec<Command<String>>,
    /// The number of commands that are behind.
    pub done: usize,
}

impl Script {
    /// The commands that are still to come.
    pub open spec fn rest(&self) -> Seq<Command<Seq<char>>> {
        if self.done <= self.commands@.len() {
            listing(self.commands@).skip(self.done as int)
        } else {
            Seq::empty()
        }
    }

    pub fn new(commands: Vec<Command<String>>) -> (r: Self)
        ensures
            r.commands == commands,
            r.rest() == listing(commands@),
    {
        let r = Script { commands, done: 0 };
        assert(r.rest() =~= listing(commands@));
        r
    }

    /// The command whose turn it is; none where all are behind.
    pub fn command(&self) -> (r: Option<&Command<String>>)
        ensures
            self.rest().len() == 0 <==> r is None,
            r matches Some(c) ==> c@ == self.rest()[0],
    {
        if self.done < self.commands.len() {
            Some(&self.commands[self.done])
        } else {
            None
        }
    }

    /// Takes the result of the command whose turn it is. A failure that is of account drops the
    /// commands that are left.
    pub fn report(&mut self, succeeded: bool) -> (r: Result<(), Failure<String>>)
        ensures
            final(self).commands == old(self).commands,
            old(self).rest().len() == 0 ==> r is Ok && final(self).rest() == old(self).rest(),
            old(self).rest().len() > 0 ==> match verdict(
                old(self).rest()[0].on_failure,
                succeeded,
            ) {
                None => r is Ok && final(self).rest() == old(self).rest().drop_first(),
                Some(failure) => {
                    &&& r matches Err(f) && f@ == failure
                    &&& final(self).rest().len() == 0
                },
            },
    {
        if self.done >= self.commands.len() {
            return Ok(());
        }
        let failure = if succeeded {
            None
        } else {
            match &self.commands[self.done].on_failure {
                OnFailure::Ignore => None,
                OnFailure::Error(message) => Some(Failure::Os(message.clone())),
                OnFailure::Panic(message) => Some(Failure::Panic(message.clone())),
            }
        };
        match failure {
            None => {
                self.done = self.done + 1;
                assert(self.rest() =~= old(self).rest().drop_first());
                Ok(())
            },
            Some(failure) => {
                self.done = self.commands.len();
                Err(failure)
            },
        }
    }
}

} // verus!
