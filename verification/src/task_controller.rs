//! The controller trait: the four operations that the tracker offers.

use vstd::prelude::*;
use crate::store::{Row, StoreState};
use crate::task_model::{create_failed_message, setter_result};
use crate::{ListId, TaskId};

verus! {

/// The operations of the tracker, each one step for its caller.
pub trait TaskController {
    /// The state of the store that the controller works on.
    spec fn store(&self) -> StoreState;

    /// The implementation's own invariant.
    spec fn wf(&self) -> bool;

    /// The document that the controller's viewer makes of the given rows.
    spec fn document(&self, rows: Seq<Row>) -> Option<Seq<char>>;

    /// Creates a task, sets its name and statement, marks it not completed
    /// and attaches it to `task_list`. Fails, changing nothing, only when
    /// the ids have run out.
    fn create_new_undone_task(
        &mut self,
        task_name: String,
        task_statement: String,
        task_list: ListId,
    ) -> (result: Result<(), String>)
        requires
            old(self).wf(),
        ensures
            final(self).wf(),
            forall|rows: Seq<Row>| #[trigger] final(self).document(rows) == old(self).document(rows),
            match result {
                Ok(_) => {
                    &&& old(self).store().next_id < u64::MAX
                    &&& final(self).store() == old(self).store().with_new_task(
                        task_name@,
                        task_statement@,
                        task_list@,
                    )
                },
                Err(message) => {
                    &&& old(self).store().next_id >= u64::MAX
                    &&& final(self).store() == old(self).store()
                    &&& message@ == create_failed_message()
                },
            },
    ;

    /// Marks the task under `task_id` completed; the not-found error where
    /// the id has no task.
    fn update_task_done(&mut self, task_id: TaskId) -> (result: Result<(), String>)
        requires
            old(self).wf(),
        ensures
            final(self).wf(),
            forall|rows: Seq<Row>| #[trigger] final(self).document(rows) == old(self).document(rows),
            setter_result(
                old(self).store(),
                final(self).store(),
                task_id,
                old(self).store().with_completed(task_id, true),
                result,
            ),
    ;

    /// Removes the list `list_id` and the task of every id that it held.
    fn delete_task_list(&mut self, list_id: ListId) -> (result: Result<(), String>)
        requires
            old(self).wf(),
        ensures
            final(self).wf(),
            forall|rows: Seq<Row>| #[trigger] final(self).document(rows) == old(self).document(rows),
            result is Ok,
            final(self).store() == old(self).store().without_list(list_id@),
    ;

    /// The viewer's document of the store's rows.
    fn render_index(&self) -> (result: Result<String, String>)
        requires
            self.wf(),
        ensures
            match result {
                Ok(html) => self.document(self.store().rows()) == Some(html@),
                Err(_) => self.document(self.store().rows()) is None,
            },
    ;
}

} // verus!
