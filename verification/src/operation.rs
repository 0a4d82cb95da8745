//! The operations that the hosted UI can ask for, by name.

use vstd::prelude::*;
use vstd::string::*;
use crate::text::is_text;

verus! {

/// One of the operations of the command protocol.
#[derive(Debug, Clone, Copy, PartialEq, Eq, Structural)]
pub enum Operation {
    Quit,
    NewWindow,
    OpenGraphicalShell,
    EnlargeWindow,
    ReduceWindow,
    MaximizeWindow,
    UnmaximizeWindow,
}

impl Operation {
    /// The name by which a message asks for this operation.
    pub open spec fn wire_name(self) -> Seq<char> {
        match self {
            Operation::Quit => "quit"@,
            Operation::NewWindow => "new-window"@,
            Operation::OpenGraphicalShell => "open-graphical-shell"@,
            Operation::EnlargeWindow => "enlarge-window"@,
            Operation::ReduceWindow => "reduce-window"@,
            Operation::MaximizeWindow => "maximize-window"@,
            Operation::UnmaximizeWindow => "unmaximize-window"@,
        }
    }

    /// Whether this operation asks for a new window, and so for a new label.
    pub open spec fn creates_window(self) -> bool {
        self == Operation::NewWindow || self == Operation::OpenGraphicalShell
    }

    /// What precedes the windowing service's own words when this operation
    /// fails there. Quitting asks nothing of the service that could fail.
    pub open spec fn failure_context(self) -> Seq<char> {
        match self {
            Operation::Quit => Seq::empty(),
            Operation::NewWindow => "Failed to create window"@,
            Operation::OpenGraphicalShell => "Failed to create shell window"@,
            Operation::EnlargeWindow => "Failed to enlarge window"@,
            Operation::ReduceWindow => "Failed to reduce window"@,
            Operation::MaximizeWindow => "Failed to maximize window"@,
            Operation::UnmaximizeWindow => "Failed to unmaximize window"@,
        }
    }

    /// The name by which a message asks for this operation.
    pub fn name(&self) -> (r: &'static str)
        ensures
            r@ == self.wire_name(),
    {
        match self {
            Operation::Quit => "quit",
            Operation::NewWindow => "new-window",
            Operation::OpenGraphicalShell => "open-graphical-shell",
            Operation::EnlargeWindow => "enlarge-window",
            Operation::ReduceWindow => "reduce-window",
            Operation::MaximizeWindow => "maximize-window",
            Operation::UnmaximizeWindow => "unmaximize-window",
        }
    }
}

/// The operation that a name asks for, if any. Names are matched exactly:
/// letter case counts, and nothing is trimmed.
pub open spec fn operation_named(name: Seq<char>) -> Option<Operation> {
    if name == Operation::Quit.wire_name() {
        Some(Operation::Quit)
    } else if name == Operation::NewWindow.wire_name() {
        Some(Operation::NewWindow)
    } else if name == Operation::OpenGraphicalShell.wire_name() {
        Some(Operation::OpenGraphicalShell)
    } else if name == Operation::EnlargeWindow.wire_name() {
        Some(Operation::EnlargeWindow)
    } else if name == Operation::ReduceWindow.wire_name() {
        Some(Operation::ReduceWindow)
    } else if name == Operation::MaximizeWindow.wire_name() {
        Some(Operation::MaximizeWindow)
    } else if name == Operation::UnmaximizeWindow.wire_name() {
        Some(Operation::UnmaximizeWindow)
    } else {
        None
    }
}

/// Two operations with the same name are the same operation.
pub proof fn lemma_wire_names_distinct(a: Operation, b: Operation)
    ensures
        a.wire_name() == b.wire_name() ==> a == b,
{
    reveal_strlit("quit");
    reveal_strlit("new-window");
    reveal_strlit("open-graphical-shell");
    reveal_strlit("enlarge-window");
    reveal_strlit("reduce-window");
    reveal_strlit("maximize-window");
    reveal_strlit("unmaximize-window");
    assert(Operation::Quit.wire_name().len() == 4);
    assert(Operation::NewWindow.wire_name().len() == 10);
    assert(Operation::OpenGraphicalShell.wire_name().len() == 20);
    assert(Operation::EnlargeWindow.wire_name().len() == 14);
    assert(Operation::ReduceWindow.wire_name().len() == 13);
    assert(Operation::MaximizeWindow.wire_name().len() == 15);
    assert(Operation::UnmaximizeWindow.wire_name().len() == 17);
}

/// Every operation is found again under its own name, and a name that finds
/// an operation is the name of that operation.
pub proof fn lemma_operation_named(operation: Operation, name: Seq<char>)
    ensures
        operation_named(operation.wire_name()) == Some(operation),
        operation_named(name) == Some(operation) <==> name == operation.wire_name(),
{
    lemma_wire_names_distinct(operation, Operation::Quit);
    lemma_wire_names_distinct(operation, Operation::NewWindow);
    lemma_wire_names_distinct(operation, Operation::OpenGraphicalShell);
    lemma_wire_names_distinct(operation, Operation::EnlargeWindow);
    lemma_wire_names_distinct(operation, Operation::ReduceWindow);
    lemma_wire_names_distinct(operation, Operation::MaximizeWindow);
    lemma_wire_names_distinct(operation, Operation::UnmaximizeWindow);
}

/// Finds the operation that a name asks for.
pub fn parse_operation(name: &String) -> (r: Option<Operation>)
    ensures
        r == operation_named(name@),
{
    if is_text(name, "quit") {
        Some(Operation::Quit)
    } else if is_text(name, "new-window") {
        Some(Operation::NewWindow)
    } else if is_text(name, "open-graphical-shell") {
        Some(Operation::OpenGraphicalShell)
    } else if is_text(name, "enlarge-window") {
        Some(Operation::EnlargeWindow)
    } else if is_text(name, "reduce-window") {
        Some(Operation::ReduceWindow)
    } else if is_text(name, "maximize-window") {
        Some(Operation::MaximizeWindow)
    } else if is_text(name, "unmaximize-window") {
        Some(Operation::UnmaximizeWindow)
    } else {
        None
    }
}

} // verus!
