//! The mathematical state of a task store and the transitions on it.
//!
//! Every model implementation is specified against [`StoreState`]. The laws
//! of the store are proved of the transitions themselves, so they hold of
//! every implementation that meets the model trait's contracts.

use vstd::prelude::*;
use crate::{TaskId, TaskView};

verus! {

/// One list: its name and the ids attached to it, oldest first.
pub ghost struct ListView {
    pub name: Seq<char>,
    pub ids: Seq<TaskId>,
}

/// One line of the enumeration: a list's name and one id attached to it.
pub type Entry = (Seq<char>, TaskId);

/// One resolved line: list name, id, and the task stored under the id.
pub type Row = (Seq<char>, TaskId, TaskView);

/// The state of a store.
pub ghost struct StoreState {
    /// The tasks, by id.
    pub tasks: Map<TaskId, TaskView>,
    /// The id that the next `create_task` hands out.
    pub next_id: nat,
    /// The lists, in the order in which they came into being.
    pub lists: Seq<ListView>,
}

/// The pairs `(list.name, id)` for the ids of one list, in attachment order.
pub open spec fn pairs_of(list: ListView) -> Seq<Entry> {
    Seq::new(list.ids.len(), |i: int| (list.name, list.ids[i]))
}

/// All lists flattened into `(name, id)` pairs, list after list.
pub open spec fn flatten(lists: Seq<ListView>) -> Seq<Entry>
    decreases lists.len(),
{
    if lists.len() == 0 {
        Seq::empty()
    } else {
        flatten(lists.drop_last()) + pairs_of(lists.last())
    }
}

/// The entries whose id has a task, each with that task; entries whose id
/// has none are left out.
pub open spec fn resolve(entries: Seq<Entry>, tasks: Map<TaskId, TaskView>) -> Seq<Row>
    decreases entries.len(),
{
    if entries.len() == 0 {
        Seq::empty()
    } else {
        let rest = resolve(entries.drop_last(), tasks);
        let entry = entries.last();
        if tasks.contains_key(entry.1) {
            rest.push((entry.0, entry.1, tasks[entry.1]))
        } else {
            rest
        }
    }
}

/// Whether the enumeration holds the pair at exactly one place.
pub open spec fn holds_once(entries: Seq<Entry>, entry: Entry) -> bool {
    exists|k: int|
        0 <= k < entries.len() && #[trigger] entries[k] == entry && forall|j: int|
            0 <= j < entries.len() && #[trigger] entries[j] == entry ==> j == k
}

/// One operation on a store, as a value.
pub ghost enum Step {
    Create,
    SetName { id: TaskId, name: Seq<char> },
    SetStatement { id: TaskId, statement: Seq<char> },
    SetCompleted { id: TaskId, completed: bool },
    Attach { id: TaskId, list: Seq<char> },
    DeleteList { list: Seq<char> },
}

/// How many of the steps are creations.
pub open spec fn creations(steps: Seq<Step>) -> nat
    decreases steps.len(),
{
    if steps.len() == 0 {
        0
    } else {
        creations(steps.drop_last()) + if steps.last() is Create {
            1nat
        } else {
            0nat
        }
    }
}

impl StoreState {
    /// The store that holds nothing and hands out id 0 first.
    pub open spec fn empty() -> StoreState {
        StoreState { tasks: Map::empty(), next_id: 0, lists: Seq::empty() }
    }

    /// What every operation keeps: the counter is within the range of the
    /// ids, no task has an id that is yet to be handed out, list names are
    /// pairwise different, and no list is empty.
    pub open spec fn valid(self) -> bool {
        &&& self.next_id <= u64::MAX
        &&& forall|id: TaskId| self.tasks.contains_key(id) ==> (id as nat) < self.next_id
        &&& forall|i: int, j: int|
            0 <= i < j < self.lists.len() ==> self.lists[i].name != self.lists[j].name
        &&& forall|i: int| 0 <= i < self.lists.len() ==> self.lists[i].ids.len() > 0
    }

    /// Whether some list holds the id.
    pub open spec fn attaches(self, id: TaskId) -> bool {
        exists|i: int, a: int|
            0 <= i < self.lists.len() && 0 <= a < self.lists[i].ids.len()
                && #[trigger] self.lists[i].ids[a] == id
    }

    /// No dangling reference: every id that a list holds has a task.
    pub open spec fn referenced(self) -> bool {
        forall|i: int, a: int|
            0 <= i < self.lists.len() && 0 <= a < self.lists[i].ids.len()
                ==> self.tasks.contains_key(#[trigger] self.lists[i].ids[a])
    }

    /// No id is held twice, by one list or by two.
    pub open spec fn exclusive(self) -> bool {
        forall|i: int, a: int, j: int, b: int|
            0 <= i < self.lists.len() && 0 <= a < self.lists[i].ids.len() && 0 <= j
                < self.lists.len() && 0 <= b < self.lists[j].ids.len() && (i != j || a != b)
                ==> #[trigger] self.lists[i].ids[a] != #[trigger] self.lists[j].ids[b]
    }

    /// Whether a list of that name exists.
    pub open spec fn has_list(self, name: Seq<char>) -> bool {
        exists|i: int| 0 <= i < self.lists.len() && self.lists[i].name == name
    }

    /// The position of the list of that name, meaningful where `has_list`.
    pub open spec fn list_index(self, name: Seq<char>) -> int {
        choose|i: int| 0 <= i < self.lists.len() && self.lists[i].name == name
    }

    /// The ids attached to the list of that name, oldest first; empty where
    /// there is no such list.
    pub open spec fn members(self, name: Seq<char>) -> Seq<TaskId> {
        if self.has_list(name) {
            self.lists[self.list_index(name)].ids
        } else {
            Seq::empty()
        }
    }

    /// The enumeration: every `(list, id)` pair, lists in order of creation,
    /// ids within a list in order of attachment.
    pub open spec fn entries(self) -> Seq<Entry> {
        flatten(self.lists)
    }

    /// The enumeration with each id's task, dangling ids left out.
    pub open spec fn rows(self) -> Seq<Row> {
        resolve(self.entries(), self.tasks)
    }

    /// After `create_task`: a blank task under `next_id`, and the counter one up.
    pub open spec fn created(self) -> StoreState {
        StoreState {
            tasks: self.tasks.insert(self.next_id as TaskId, TaskView::blank()),
            next_id: self.next_id + 1,
            ..self
        }
    }

    /// After `set_task_name` on an existing id.
    pub open spec fn with_name(self, id: TaskId, name: Seq<char>) -> StoreState {
        StoreState { tasks: self.tasks.insert(id, TaskView { name, ..self.tasks[id] }), ..self }
    }

    /// After `set_task_statement` on an existing id.
    pub open spec fn with_statement(self, id: TaskId, statement: Seq<char>) -> StoreState {
        StoreState {
            tasks: self.tasks.insert(id, TaskView { statement, ..self.tasks[id] }),
            ..self
        }
    }

    /// After `set_task_completed` on an existing id.
    pub open spec fn with_completed(self, id: TaskId, completed: bool) -> StoreState {
        StoreState {
            tasks: self.tasks.insert(id, TaskView { completed, ..self.tasks[id] }),
            ..self
        }
    }

    /// After `set_task_list`: `id` is appended to the list of that name,
    /// which comes into being, last of all lists, if it did not exist.
    /// Whether `id` has a task plays no part.
    pub open spec fn attached(self, id: TaskId, name: Seq<char>) -> StoreState {
        if self.has_list(name) {
            let i = self.list_index(name);
            StoreState {
                lists: self.lists.update(i, ListView { name, ids: self.lists[i].ids.push(id) }),
                ..self
            }
        } else {
            StoreState { lists: self.lists.push(ListView { name, ids: seq![id] }), ..self }
        }
    }

    /// After a new, undone task was created with the given texts and
    /// attached to the list of that name.
    pub open spec fn with_new_task(
        self,
        name: Seq<char>,
        statement: Seq<char>,
        list: Seq<char>,
    ) -> StoreState {
        let id = self.next_id as TaskId;
        self.created().with_name(id, name).with_statement(id, statement).with_completed(
            id,
            false,
        ).attached(id, list)
    }

    /// The store that one operation leaves, a failed one included: a
    /// creation with no id left and a setter on an id without a task change
    /// nothing.
    pub open spec fn step(self, step: Step) -> StoreState {
        match step {
            Step::Create => if self.next_id < u64::MAX {
                self.created()
            } else {
                self
            },
            Step::SetName { id, name } => if self.tasks.contains_key(id) {
                self.with_name(id, name)
            } else {
                self
            },
            Step::SetStatement { id, statement } => if self.tasks.contains_key(id) {
                self.with_statement(id, statement)
            } else {
                self
            },
            Step::SetCompleted { id, completed } => if self.tasks.contains_key(id) {
                self.with_completed(id, completed)
            } else {
                self
            },
            Step::Attach { id, list } => self.attached(id, list),
            Step::DeleteList { list } => self.without_list(list),
        }
    }

    /// The store after all the steps, first to last.
    pub open spec fn run(self, steps: Seq<Step>) -> StoreState
        decreases steps.len(),
    {
        if steps.len() == 0 {
            self
        } else {
            self.run(steps.drop_last()).step(steps.last())
        }
    }

    /// Whether the step leaves the task under `id` in the store: every step
    /// does, but the deletion of a list that holds the id.
    pub open spec fn spares(self, step: Step, id: TaskId) -> bool {
        step matches Step::DeleteList { list } ==> !self.members(list).contains(id)
    }

    /// Whether each of the steps, run first to last, spares the task under `id`.
    pub open spec fn spares_all(self, steps: Seq<Step>, id: TaskId) -> bool
        decreases steps.len(),
    {
        steps.len() == 0 || (self.spares_all(steps.drop_last(), id) && self.run(
            steps.drop_last(),
        ).spares(steps.last(), id))
    }

    /// After `delete_task_list`: the list is gone, and so is the task of
    /// every id that it held, whether or not another list holds the id too.
    pub open spec fn without_list(self, name: Seq<char>) -> StoreState {
        if self.has_list(name) {
            StoreState {
                tasks: self.tasks.remove_keys(self.members(name).to_set()),
                lists: self.lists.remove(self.list_index(name)),
                ..self
            }
        } else {
            self
        }
    }
}

} // verus!
