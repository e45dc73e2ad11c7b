//! The viewer trait: one document of everything a model enumerates.

use vstd::prelude::*;
use crate::store::Row;
use crate::task_model::TaskModel;

verus! {

/// Renders the tasks of a model.
pub trait TaskViewer {
    /// The document that this viewer makes of the given rows, or `None`
    /// where it can make none of them.
    spec fn document(&self, rows: Seq<Row>) -> Option<Seq<char>>;

    /// The document of the model's rows: every enumerated `(list, id)` pair
    /// whose id has a task, with that task, in enumeration order. A pair
    /// whose id has no task is left out and fails nothing.
    fn get_all_tasks_html<T: TaskModel>(&self, model: &T) -> (result: Result<String, String>)
        requires
            model.wf(),
        ensures
            match result {
                Ok(html) => self.document(model.store().rows()) == Some(html@),
                Err(_) => self.document(model.store().rows()) is None,
            },
    ;
}

} // verus!
