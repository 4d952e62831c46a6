//! One change to the set of tasks, as the operation log records it.

use crate::ids::Uuid;
use crate::views::views;
use vstd::prelude::*;

verus! {

/// A change to the set of tasks. The log keeps operations in the order in which they
/// were added.
#[derive(Debug, PartialEq, Eq)]
pub enum Operation {
    /// A task was created.
    Create { uuid: Uuid },
    /// A task was deleted.
    Delete { uuid: Uuid },
    /// A property of a task changed, at `timestamp` seconds since the Unix epoch. An
    /// absent value says that the task did not have the property.
    Update {
        uuid: Uuid,
        property: String,
        old_value: Option<String>,
        value: Option<String>,
        timestamp: i64,
    },
    /// A point up to which later operations can be undone.
    UndoPoint,
}

/// What an operation says, with its texts as sequences of characters.
pub enum OperationView {
    Create { uuid: Uuid },
    Delete { uuid: Uuid },
    Update {
        uuid: Uuid,
        property: Seq<char>,
        old_value: Option<Seq<char>>,
        value: Option<Seq<char>>,
        timestamp: i64,
    },
    UndoPoint,
}

/// The characters of an optional text.
pub open spec fn text_view(text: Option<String>) -> Option<Seq<char>> {
    match text {
        Some(s) => Some(s@),
        None => None,
    }
}

impl View for Operation {
    type V = OperationView;

    open spec fn view(&self) -> OperationView {
        match *self {
            Operation::Create { uuid } => OperationView::Create { uuid },
            Operation::Delete { uuid } => OperationView::Delete { uuid },
            Operation::Update { uuid, property, old_value, value, timestamp } => {
                OperationView::Update {
                    uuid,
                    property: property@,
                    old_value: text_view(old_value),
                    value: text_view(value),
                    timestamp,
                }
            },
            Operation::UndoPoint => OperationView::UndoPoint,
        }
    }
}

/// A copy of an optional text.
pub fn copy_text(text: &Option<String>) -> (r: Option<String>)
    ensures
        text_view(r) == text_view(*text),
{
    match text {
        Some(s) => Some(s.clone()),
        None => None,
    }
}

impl Clone for Operation {
    fn clone(&self) -> (r: Operation)
        ensures
            r@ == self@,
    {
        match self {
            Operation::Create { uuid } => Operation::Create { uuid: *uuid },
            Operation::Delete { uuid } => Operation::Delete { uuid: *uuid },
            Operation::Update { uuid, property, old_value, value, timestamp } => {
                Operation::Update {
                    uuid: *uuid,
                    property: property.clone(),
                    old_value: copy_text(old_value),
                    value: copy_text(value),
                    timestamp: *timestamp,
                }
            },
            Operation::UndoPoint => Operation::UndoPoint,
        }
    }
}

/// A copy of a log, operation by operation.
pub fn copy_log(log: &Vec<Operation>) -> (r: Vec<Operation>)
    ensures
        views(r@) == views(log@),
{
    let mut out: Vec<Operation> = Vec::new();
    let mut i: usize = 0;
    while i < log.len()
        invariant
            i <= log.len(),
            out@.len() == i,
            forall|j: int| 0 <= j < i ==> (#[trigger] out@[j])@ == log@[j]@,
        decreases log.len() - i,
    {
        out.push(log[i].clone());
        i = i + 1;
    }
    assert(views(out@) =~= views(log@));
    out
}

} // verus!
