//! A change that the command line asks for: what to do to a task's description, tags,
//! wait time and dependencies. The arguments of one command are folded into one change,
//! in the order in which they were given.

use crate::ids::Uuid;
use crate::usage;
use crate::views::{views, SameView};
use crate::viewset::ViewSet;
use vstd::prelude::*;
use vstd::string::StringExecFns;

verus! {

/// What to do to the description of a task.
#[derive(Debug, PartialEq, Clone)]
pub enum DescriptionMod {
    /// do not change the description
    Unchanged,
    /// Prepend the given value to the description, with a space separator
    Prepend(String),
    /// Append the given value to the description, with a space separator
    Append(String),
    /// Set the description
    Replace(String),
}

/// What a `DescriptionMod` says.
pub enum DescriptionModView {
    Unchanged,
    Prepend(Seq<char>),
    Append(Seq<char>),
    Replace(Seq<char>),
}

impl View for DescriptionMod {
    type V = DescriptionModView;

    open spec fn view(&self) -> DescriptionModView {
        match *self {
            DescriptionMod::Unchanged => DescriptionModView::Unchanged,
            DescriptionMod::Prepend(text) => DescriptionModView::Prepend(text@),
            DescriptionMod::Append(text) => DescriptionModView::Append(text@),
            DescriptionMod::Replace(text) => DescriptionModView::Replace(text@),
        }
    }
}

impl Default for DescriptionMod {
    fn default() -> (r: DescriptionMod)
        ensures
            r == DescriptionMod::Unchanged,
    {
        Self::Unchanged
    }
}

/// The state of a task in its life.
#[derive(Debug, PartialEq, Eq, Clone, Copy)]
pub enum Status {
    Pending,
    Completed,
    Deleted,
}

/// A way to name a task: its slot in the working set, the beginning of its
/// identifier as it is written, or its identifier.
#[derive(Debug, PartialEq, Eq, Clone)]
pub enum TaskId {
    WorkingSetId(usize),
    PartialUuid(String),
    Uuid(Uuid),
}

/// What a `TaskId` says.
pub enum TaskIdView {
    WorkingSetId(usize),
    PartialUuid(Seq<char>),
    Uuid(Uuid),
}

impl View for TaskId {
    type V = TaskIdView;

    open spec fn view(&self) -> TaskIdView {
        match *self {
            TaskId::WorkingSetId(slot) => TaskIdView::WorkingSetId(slot),
            TaskId::PartialUuid(text) => TaskIdView::PartialUuid(text@),
            TaskId::Uuid(uuid) => TaskIdView::Uuid(uuid),
        }
    }
}

impl SameView for TaskId {
    fn same(&self, other: &TaskId) -> (r: bool) {
        match (self, other) {
            (TaskId::WorkingSetId(a), TaskId::WorkingSetId(b)) => *a == *b,
            (TaskId::PartialUuid(a), TaskId::PartialUuid(b)) => *a == *b,
            (TaskId::Uuid(a), TaskId::Uuid(b)) => *a == *b,
            _ => false,
        }
    }

    fn copy(&self) -> (r: TaskId) {
        match self {
            TaskId::WorkingSetId(slot) => TaskId::WorkingSetId(*slot),
            TaskId::PartialUuid(text) => TaskId::PartialUuid(text.clone()),
            TaskId::Uuid(uuid) => TaskId::Uuid(*uuid),
        }
    }
}

/// A single argument that is part of a modification. An instant is in seconds since
/// the Unix epoch.
#[derive(Debug, PartialEq, Eq, Clone)]
pub enum ModArg {
    Description(String),
    PlusTag(String),
    MinusTag(String),
    Wait(Option<i64>),
    AddDependencies(Vec<TaskId>),
    RemoveDependencies(Vec<TaskId>),
}

/// What a `ModArg` says.
pub enum ModArgView {
    Description(Seq<char>),
    PlusTag(Seq<char>),
    MinusTag(Seq<char>),
    Wait(Option<i64>),
    AddDependencies(Seq<TaskIdView>),
    RemoveDependencies(Seq<TaskIdView>),
}

impl View for ModArg {
    type V = ModArgView;

    open spec fn view(&self) -> ModArgView {
        match *self {
            ModArg::Description(text) => ModArgView::Description(text@),
            ModArg::PlusTag(tag) => ModArgView::PlusTag(tag@),
            ModArg::MinusTag(tag) => ModArgView::MinusTag(tag@),
            ModArg::Wait(wait) => ModArgView::Wait(wait),
            ModArg::AddDependencies(ids) => ModArgView::AddDependencies(views(ids@)),
            ModArg::RemoveDependencies(ids) => ModArgView::RemoveDependencies(views(ids@)),
        }
    }
}

/// What the readers of single arguments make of one argument. Each reader knows one
/// form of argument, and says what it reads where the argument has that form: the
/// tag of `+TAG`, the tag of `-TAG`, the instant of `wait:<timestamp>` or no instant
/// for `wait:`, and for `depends:<task-list>` the tasks of the list, with `false`
/// where the list follows a `-`.
#[derive(Debug, PartialEq, Eq, Clone)]
pub struct Readings {
    pub plus_tag: Option<String>,
    pub minus_tag: Option<String>,
    pub wait: Option<Option<i64>>,
    pub dependencies: Option<(bool, Vec<TaskId>)>,
}

/// The argument that a text is, given what the readers make of it: the first reading
/// that is there, in the order tag to add, tag to remove, wait time, dependencies; a
/// text that no reader reads is a word of the description.
pub open spec fn mod_arg_of(text: String, readings: Readings) -> ModArgView {
    if readings.plus_tag is Some {
        ModArgView::PlusTag(readings.plus_tag->0@)
    } else if readings.minus_tag is Some {
        ModArgView::MinusTag(readings.minus_tag->0@)
    } else if readings.wait is Some {
        ModArgView::Wait(readings.wait->0)
    } else {
        match readings.dependencies {
            Some((true, ids)) => ModArgView::AddDependencies(views(ids@)),
            Some((false, ids)) => ModArgView::RemoveDependencies(views(ids@)),
            None => ModArgView::Description(text@),
        }
    }
}

/// A modification represents a change to a task: adding or removing tags, setting the
/// description, and so on.
#[derive(Debug, PartialEq, Clone)]
pub struct Modification {
    /// Change the description
    pub description: DescriptionMod,
    /// Set the status
    pub status: Option<Status>,
    /// Set (or, with `Some(None)`, clear) the wait timestamp
    pub wait: Option<Option<i64>>,
    /// Set the "active" state, that is, start (true) or stop (false) the task.
    pub active: Option<bool>,
    /// Add tags
    pub add_tags: ViewSet<String>,
    /// Remove tags
    pub remove_tags: ViewSet<String>,
    /// Add dependencies
    pub add_dependencies: ViewSet<TaskId>,
    /// Remove dependencies
    pub remove_dependencies: ViewSet<TaskId>,
    /// Add annotation
    pub annotate: Option<String>,
}

/// What a `Modification` says.
pub struct ModificationView {
    pub description: DescriptionModView,
    pub status: Option<Status>,
    pub wait: Option<Option<i64>>,
    pub active: Option<bool>,
    pub add_tags: Set<Seq<char>>,
    pub remove_tags: Set<Seq<char>>,
    pub add_dependencies: Set<TaskIdView>,
    pub remove_dependencies: Set<TaskIdView>,
    pub annotate: Option<Seq<char>>,
}

impl View for Modification {
    type V = ModificationView;

    open spec fn view(&self) -> ModificationView {
        ModificationView {
            description: self.description@,
            status: self.status,
            wait: self.wait,
            active: self.active,
            add_tags: self.add_tags@,
            remove_tags: self.remove_tags@,
            add_dependencies: self.add_dependencies@,
            remove_dependencies: self.remove_dependencies@,
            annotate: match self.annotate {
                Some(text) => Some(text@),
                None => None,
            },
        }
    }
}

impl ModificationView {
    /// The change that changes nothing.
    pub open spec fn empty() -> ModificationView {
        ModificationView {
            description: DescriptionModView::Unchanged,
            status: None,
            wait: None,
            active: None,
            add_tags: Set::empty(),
            remove_tags: Set::empty(),
            add_dependencies: Set::empty(),
            remove_dependencies: Set::empty(),
            annotate: None,
        }
    }

    /// The change with one more argument. Words of a description are joined by single
    /// spaces, in their order; the last wait time stands; tags and dependencies
    /// gather.
    pub open spec fn fold(self, arg: ModArgView) -> ModificationView {
        match arg {
            ModArgView::Description(text) => ModificationView {
                description: match self.description {
                    DescriptionModView::Replace(existing) => DescriptionModView::Replace(
                        existing + " "@ + text,
                    ),
                    _ => DescriptionModView::Replace(text),
                },
                ..self
            },
            ModArgView::PlusTag(tag) => ModificationView {
                add_tags: self.add_tags.insert(tag),
                ..self
            },
            ModArgView::MinusTag(tag) => ModificationView {
                remove_tags: self.remove_tags.insert(tag),
                ..self
            },
            ModArgView::Wait(wait) => ModificationView { wait: Some(wait), ..self },
            ModArgView::AddDependencies(ids) => ModificationView {
                add_dependencies: self.add_dependencies.union(ids.to_set()),
                ..self
            },
            ModArgView::RemoveDependencies(ids) => ModificationView {
                remove_dependencies: self.remove_dependencies.union(ids.to_set()),
                ..self
            },
        }
    }

    /// The change with a run of arguments more, the first of `args` first.
    pub open spec fn fold_all(self, args: Seq<ModArgView>) -> ModificationView
        decreases args.len(),
    {
        if args.len() == 0 {
            self
        } else {
            self.fold_all(args.drop_last()).fold(args.last())
        }
    }
}

/// Inserts every one of `ids` into `set`.
fn insert_all(set: &mut ViewSet<TaskId>, ids: Vec<TaskId>)
    ensures
        final(set)@ == old(set)@.union(views(ids@).to_set()),
{
    let mut i: usize = 0;
    while i < ids.len()
        invariant
            i <= ids.len(),
            set@ == old(set)@.union(views(ids@.subrange(0, i as int)).to_set()),
        decreases ids.len() - i,
    {
        let ghost before = views(ids@.subrange(0, i as int));
        let ghost after = views(ids@.subrange(0, i + 1));
        proof {
            assert(after =~= before.push(ids@[i as int]@));
            assert forall|v: TaskIdView| after.to_set().contains(v) <==> before.to_set().insert(
                ids@[i as int]@,
            ).contains(v) by {
                if after.contains(v) {
                    let j = choose|j: int| 0 <= j < after.len() && after[j] == v;
                    if j < before.len() {
                        assert(before[j] == v);
                    }
                }
                if before.contains(v) {
                    let j = choose|j: int| 0 <= j < before.len() && before[j] == v;
                    assert(after[j] == v);
                }
                if v == ids@[i as int]@ {
                    assert(after[i as int] == v);
                }
            }
            assert(old(set)@.union(after.to_set()) =~= old(set)@.union(before.to_set()).insert(
                ids@[i as int]@,
            ));
        }
        let _ = set.insert(ids[i].copy());
        i = i + 1;
    }
    assert(ids@.subrange(0, i as int) =~= ids@);
}

impl Modification {
    /// The change that changes nothing.
    pub fn new() -> (r: Modification)
        ensures
            r@ == ModificationView::empty(),
    {
        Modification {
            description: DescriptionMod::Unchanged,
            status: None,
            wait: None,
            active: None,
            add_tags: ViewSet::new(),
            remove_tags: ViewSet::new(),
            add_dependencies: ViewSet::new(),
            remove_dependencies: ViewSet::new(),
            annotate: None,
        }
    }

    /// A text that no reader reads: a word of the description.
    pub fn description(input: String) -> (r: ModArg)
        ensures
            r@ == ModArgView::Description(input@),
    {
        ModArg::Description(input)
    }

    /// What the reader of `+TAG` read: a tag to add.
    pub fn plus_tag(input: String) -> (r: ModArg)
        ensures
            r@ == ModArgView::PlusTag(input@),
    {
        ModArg::PlusTag(input)
    }

    /// What the reader of `-TAG` read: a tag to remove.
    pub fn minus_tag(input: String) -> (r: ModArg)
        ensures
            r@ == ModArgView::MinusTag(input@),
    {
        ModArg::MinusTag(input)
    }

    /// What the reader of `wait:` read: a wait time to set, or to clear.
    pub fn wait(input: Option<i64>) -> (r: ModArg)
        ensures
            r@ == ModArgView::Wait(input),
    {
        ModArg::Wait(input)
    }

    /// What the reader of `depends:` read: dependencies to add where the flag is set,
    /// to remove where it is not.
    pub fn dependencies(input: (bool, Vec<TaskId>)) -> (r: ModArg)
        ensures
            r@ == (if input.0 {
                ModArgView::AddDependencies(views(input.1@))
            } else {
                ModArgView::RemoveDependencies(views(input.1@))
            }),
    {
        if input.0 {
            ModArg::AddDependencies(input.1)
        } else {
            ModArg::RemoveDependencies(input.1)
        }
    }

    /// The argument that `text` is, given what the readers make of it. The readers are
    /// asked in a fixed order, and the first that reads the text decides; the
    /// description comes last, because any text can be a word of it.
    pub fn mod_arg(text: String, readings: Readings) -> (r: ModArg)
        ensures
            r@ == mod_arg_of(text, readings),
    {
        match readings.plus_tag {
            Some(tag) => {
                return Modification::plus_tag(tag);
            },
            None => {},
        }
        match readings.minus_tag {
            Some(tag) => {
                return Modification::minus_tag(tag);
            },
            None => {},
        }
        match readings.wait {
            Some(wait) => {
                return Modification::wait(wait);
            },
            None => {},
        }
        match readings.dependencies {
            Some(dependencies) => {
                return Modification::dependencies(dependencies);
            },
            None => {},
        }
        Modification::description(text)
    }

    /// Adds one argument to the change.
    pub fn fold(acc: Modification, mod_arg: ModArg) -> (r: Modification)
        ensures
            r@ == acc@.fold(mod_arg@),
    {
        let mut acc = acc;
        match mod_arg {
            ModArg::Description(description) => {
                let joined = match acc.description {
                    DescriptionMod::Replace(existing) => existing.concat(" ").concat(
                        description.as_str(),
                    ),
                    _ => description,
                };
                acc.description = DescriptionMod::Replace(joined);
            },
            ModArg::PlusTag(tag) => {
                let _ = acc.add_tags.insert(tag);
            },
            ModArg::MinusTag(tag) => {
                let _ = acc.remove_tags.insert(tag);
            },
            ModArg::Wait(wait) => {
                acc.wait = Some(wait);
            },
            ModArg::AddDependencies(task_ids) => {
                insert_all(&mut acc.add_dependencies, task_ids);
            },
            ModArg::RemoveDependencies(task_ids) => {
                insert_all(&mut acc.remove_dependencies, task_ids);
            },
        }
        acc
    }

    /// The change that the arguments of one command ask for.
    pub fn parse(input: Vec<ModArg>) -> (r: Modification)
        ensures
            r@ == ModificationView::empty().fold_all(views(input@)),
    {
        let mut acc = Modification::new();
        let ghost mut done: Seq<ModArgView> = Seq::empty();
        let ghost all = views(input@);
        for arg in it: input
            invariant
                all == views(it.seq()),
                done == all.subrange(0, it.index()),
                acc@ == ModificationView::empty().fold_all(done),
        {
            proof {
                assert(arg == it.seq()[it.index()]);
                let longer = all.subrange(0, it.index() + 1);
                assert(longer.drop_last() =~= done);
                assert(longer.last() == arg@);
                done = longer;
            }
            acc = Modification::fold(acc, arg);
        }
        assert(done =~= all);
        acc
    }
}

/// The help for the arguments that modify a task, in the order in which the help
/// shows them.
pub open spec fn modification_usage() -> Seq<usage::Modification> {
    seq![
        usage::Modification {
            syntax: "DESCRIPTION",
            summary: "Set description/annotation",
            description: "
                Set the task description (or the task annotation for `ta annotate`).  Multiple
                arguments are combined into a single space-separated description.  To avoid
                surprises from shell quoting, prefer to use a single quoted argument, for example
                `ta 19 modify \"return library books\"`",
        },
        usage::Modification {
            syntax: "+TAG",
            summary: "Tag task",
            description: "Add the given tag to the task.",
        },
        usage::Modification {
            syntax: "-TAG",
            summary: "Un-tag task",
            description: "Remove the given tag from the task.",
        },
        usage::Modification {
            syntax: "status:{pending,completed,deleted}",
            summary: "Set the task's status",
            description: "Set the status of the task explicitly.",
        },
        usage::Modification {
            syntax: "wait:<timestamp>",
            summary: "Set or unset the task's wait time",
            description: "
                Set the time before which the task is not actionable and should not be shown in
                reports, e.g., `wait:3day` to wait for three days.  With `wait:`, the time is
                un-set.  See the documentation for the timestamp syntax.",
        },
        usage::Modification {
            syntax: "depends:<task-list>",
            summary: "Add task dependencies",
            description: "
                Add a dependency of the task on the given tasks.  The tasks can be specified
                in the same syntax as for filters, e.g., `depends:13,94500c95`.",
        },
        usage::Modification {
            syntax: "depends:-<task-list>",
            summary: "Remove task dependencies",
            description: "
                Remove the dependency of the task on the given tasks.",
        },
    ]
}

impl Modification {
    /// Adds the help for the arguments that modify a task to the help text.
    pub fn get_usage(u: &mut usage::Usage)
        ensures
            final(u).modifications@ == old(u).modifications@ + modification_usage(),
    {
        u.modifications.push(
            usage::Modification {
                syntax: "DESCRIPTION",
                summary: "Set description/annotation",
                description: "
                Set the task description (or the task annotation for `ta annotate`).  Multiple
                arguments are combined into a single space-separated description.  To avoid
                surprises from shell quoting, prefer to use a single quoted argument, for example
                `ta 19 modify \"return library books\"`",
            },
        );
        u.modifications.push(
            usage::Modification {
                syntax: "+TAG",
                summary: "Tag task",
                description: "Add the given tag to the task.",
            },
        );
        u.modifications.push(
            usage::Modification {
                syntax: "-TAG",
                summary: "Un-tag task",
                description: "Remove the given tag from the task.",
            },
        );
        u.modifications.push(
            usage::Modification {
                syntax: "status:{pending,completed,deleted}",
                summary: "Set the task's status",
                description: "Set the status of the task explicitly.",
            },
        );
        u.modifications.push(
            usage::Modification {
                syntax: "wait:<timestamp>",
                summary: "Set or unset the task's wait time",
                description: "
                Set the time before which the task is not actionable and should not be shown in
                reports, e.g., `wait:3day` to wait for three days.  With `wait:`, the time is
                un-set.  See the documentation for the timestamp syntax.",
            },
        );
        u.modifications.push(
            usage::Modification {
                syntax: "depends:<task-list>",
                summary: "Add task dependencies",
                description: "
                Add a dependency of the task on the given tasks.  The tasks can be specified
                in the same syntax as for filters, e.g., `depends:13,94500c95`.",
            },
        );
        u.modifications.push(
            usage::Modification {
                syntax: "depends:-<task-list>",
                summary: "Remove task dependencies",
                description: "
                Remove the dependency of the task on the given tasks.",
            },
        );
        assert(u.modifications@ =~= old(u).modifications@ + modification_usage());
    }
}

impl Default for Modification {
    fn default() -> (r: Modification)
        ensures
            r@ == ModificationView::empty(),
    {
        Modification::new()
    }
}

} // verus!
