//! A controller over any model and any viewer.

use vstd::prelude::*;
use crate::store::{Row, StoreState};
use crate::task_controller::TaskController;
use crate::task_model::TaskModel;
use crate::task_viewer::TaskViewer;
use crate::{ListId, TaskId};

verus! {

/// A controller that owns its model and its viewer.
pub struct SimpleController<M, V> where M: TaskModel, V: TaskViewer {
    pub model: Box<M>,
    pub viewer: Box<V>,
}

impl<M, V> TaskController for SimpleController<M, V> where M: TaskModel, V: TaskViewer {
    open spec fn store(&self) -> StoreState {
        self.model.store()
    }

    open spec fn wf(&self) -> bool {
        self.model.wf()
    }

    open spec fn document(&self, rows: Seq<Row>) -> Option<Seq<char>> {
        self.viewer.document(rows)
    }

    fn create_new_undone_task(
        &mut self,
        task_name: String,
        task_statement: String,
        task_list: ListId,
    ) -> (result: Result<(), String>)
        ensures
            final(self).viewer == old(self).viewer,
    {
        let task_id = self.model.create_task()?;
        self.model.set_task_name(task_id, &task_name)?;
        self.model.set_task_statement(task_id, &task_statement)?;
        self.model.set_task_completed(task_id, false)?;
        self.model.set_task_list(task_id, task_list)?;
        Ok(())
    }

    fn update_task_done(&mut self, task_id: TaskId) -> (result: Result<(), String>)
        ensures
            final(self).viewer == old(self).viewer,
    {
        self.model.set_task_completed(task_id, true)
    }

    fn delete_task_list(&mut self, list_id: ListId) -> (result: Result<(), String>)
        ensures
            final(self).viewer == old(self).viewer,
    {
        self.model.delete_task_list(list_id)
    }

    fn render_index(&self) -> (result: Result<String, String>) {
        self.viewer.get_all_tasks_html(&*self.model)
    }
}

} // verus!
