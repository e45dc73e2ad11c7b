//! The model trait: what the rest of the tracker asks of a task store.

use vstd::prelude::*;
use crate::store::{Entry, StoreState};
use crate::{ListId, TaskId};

verus! {

/// The text of the error returned where an id has no task.
pub open spec fn not_found_message() -> Seq<char> {
    "No task for given task_id"@
}

/// The text of the error returned where no id is left to hand out.
pub open spec fn create_failed_message() -> Seq<char> {
    "Failed to create new task, already exists"@
}

/// The mathematical value of an enumeration as `get_all_tasks` returns it.
pub open spec fn entries_view(pairs: Seq<(ListId, TaskId)>) -> Seq<Entry> {
    Seq::new(pairs.len(), |i: int| (pairs[i].0@, pairs[i].1))
}

/// The result of a setter: `Ok` and the store `after` where `id` has a task,
/// the not-found error and the store unchanged where it has none.
pub open spec fn setter_result(
    before: StoreState,
    now: StoreState,
    id: TaskId,
    after: StoreState,
    result: Result<(), String>,
) -> bool {
    match result {
        Ok(_) => before.tasks.contains_key(id) && now == after,
        Err(message) => !before.tasks.contains_key(id) && now == before && message@
            == not_found_message(),
    }
}

/// A store of tasks and of the lists they are attached to.
///
/// Each implementation has a mathematical state, `store()`, and every
/// operation is specified as a transition on it.
pub trait TaskModel {
    /// The state of the store.
    spec fn store(&self) -> StoreState;

    /// The implementation's own invariant.
    spec fn wf(&self) -> bool;

    /// A well-formed implementation is in a valid state.
    proof fn wf_is_valid(&self)
        requires
            self.wf(),
        ensures
            self.store().valid(),
    ;

    /// Stores a blank task under the next unused id and returns the id.
    /// Fails, changing nothing, only when the ids have run out.
    fn create_task(&mut self) -> (result: Result<TaskId, String>)
        requires
            old(self).wf(),
        ensures
            final(self).wf(),
            match result {
                Ok(id) => {
                    &&& old(self).store().next_id < u64::MAX
                    &&& id == old(self).store().next_id
                    &&& final(self).store() == old(self).store().created()
                },
                Err(message) => {
                    &&& old(self).store().next_id >= u64::MAX
                    &&& final(self).store() == old(self).store()
                    &&& message@ == create_failed_message()
                },
            },
    ;

    /// Replaces the name of the task under `task_id`, and nothing else.
    fn set_task_name(&mut self, task_id: TaskId, name: &String) -> (result: Result<(), String>)
        requires
            old(self).wf(),
        ensures
            final(self).wf(),
            setter_result(
                old(self).store(),
                final(self).store(),
                task_id,
                old(self).store().with_name(task_id, name@),
                result,
            ),
    ;

    /// Replaces the statement of the task under `task_id`, and nothing else.
    fn set_task_statement(&mut self, task_id: TaskId, statement: &String) -> (result: Result<
        (),
        String,
    >)
        requires
            old(self).wf(),
        ensures
            final(self).wf(),
            setter_result(
                old(self).store(),
                final(self).store(),
                task_id,
                old(self).store().with_statement(task_id, statement@),
                result,
            ),
    ;

    /// Replaces the completion flag of the task under `task_id`, and nothing else.
    fn set_task_completed(&mut self, task_id: TaskId, completed: bool) -> (result: Result<
        (),
        String,
    >)
        requires
            old(self).wf(),
        ensures
            final(self).wf(),
            setter_result(
                old(self).store(),
                final(self).store(),
                task_id,
                old(self).store().with_completed(task_id, completed),
                result,
            ),
    ;

    /// Appends `task_id` to the list `list_id`, which comes into being if it
    /// did not exist. Never fails, and does not ask whether the id has a task.
    fn set_task_list(&mut self, task_id: TaskId, list_id: ListId) -> (result: Result<(), String>)
        requires
            old(self).wf(),
        ensures
            final(self).wf(),
            result is Ok,
            final(self).store() == old(self).store().attached(task_id, list_id@),
    ;

    /// Every `(list, id)` pair of the store. Never fails.
    fn get_all_tasks(&self) -> (result: Result<Vec<(ListId, TaskId)>, String>)
        requires
            self.wf(),
        ensures
            result is Ok,
            entries_view(result->Ok_0@) == self.store().entries(),
    ;

    /// The name of the task under `task_id`.
    fn get_task_name(&self, task_id: TaskId) -> (result: Result<String, String>)
        requires
            self.wf(),
        ensures
            match result {
                Ok(name) => self.store().tasks.contains_key(task_id) && name@
                    == self.store().tasks[task_id].name,
                Err(message) => !self.store().tasks.contains_key(task_id) && message@
                    == not_found_message(),
            },
    ;

    /// The statement of the task under `task_id`.
    fn get_task_statement(&self, task_id: TaskId) -> (result: Result<String, String>)
        requires
            self.wf(),
        ensures
            match result {
                Ok(statement) => self.store().tasks.contains_key(task_id) && statement@
                    == self.store().tasks[task_id].statement,
                Err(message) => !self.store().tasks.contains_key(task_id) && message@
                    == not_found_message(),
            },
    ;

    /// The completion flag of the task under `task_id`.
    fn get_task_completed(&self, task_id: TaskId) -> (result: Result<bool, String>)
        requires
            self.wf(),
        ensures
            match result {
                Ok(completed) => self.store().tasks.contains_key(task_id) && completed
                    == self.store().tasks[task_id].completed,
                Err(message) => !self.store().tasks.contains_key(task_id) && message@
                    == not_found_message(),
            },
    ;

    /// Removes the list `list_id` and the task of every id that it held.
    /// Never fails; where there is no such list, nothing changes.
    fn delete_task_list(&mut self, list_id: ListId) -> (result: Result<(), String>)
        requires
            old(self).wf(),
        ensures
            final(self).wf(),
            result is Ok,
            final(self).store() == old(self).store().without_list(list_id@),
    ;
}

} // verus!
