//! The parts of the help text of the command line.

use vstd::prelude::*;

verus! {

/// The help for one form of argument that modifies a task.
#[derive(Debug, PartialEq, Eq, Clone, Copy)]
pub struct Modification {
    /// How the argument is written, such as `+TAG`.
    pub syntax: &'static str,
    /// One line on what the argument does.
    pub summary: &'static str,
    /// A paragraph on what the argument does.
    pub description: &'static str,
}

/// The help text, part by part.
#[derive(Debug)]
pub struct Usage {
    /// The arguments that modify a task.
    pub modifications: Vec<Modification>,
}

impl Usage {
    /// A help text without any part.
    pub fn new() -> (r: Usage)
        ensures
            r.modifications@ == Seq::<Modification>::empty(),
    {
        Usage { modifications: Vec::new() }
    }
}

} // verus!
