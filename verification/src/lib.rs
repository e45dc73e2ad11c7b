//! A small task tracker: tasks with a name, a statement and a completion
//! flag, grouped into named lists, behind model / viewer / controller traits.

use vstd::prelude::*;

pub mod hash_map_model;
pub mod laws;
pub mod simple_controller;
pub mod simple_viewer;
pub mod store;
pub mod task_controller;
pub mod task_model;
pub mod task_viewer;

verus! {

/// Identifier of a task: allocated from zero upwards and never reused.
pub type TaskId = u64;

/// Name of a list. A list exists exactly while it holds at least one id.
pub type ListId = String;

/// A task as the tracker stores it.
#[derive(Debug, Clone, PartialEq)]
pub struct Task {
    pub name: String,
    pub statement: String,
    pub completed: bool,
}

/// The mathematical value of a [`Task`].
pub ghost struct TaskView {
    pub name: Seq<char>,
    pub statement: Seq<char>,
    pub completed: bool,
}

impl TaskView {
    /// The task that `create_task` stores: empty texts, not completed.
    pub open spec fn blank() -> TaskView {
        TaskView { name: Seq::empty(), statement: Seq::empty(), completed: false }
    }
}

impl View for Task {
    type V = TaskView;

    open spec fn view(&self) -> TaskView {
        TaskView { name: self.name@, statement: self.statement@, completed: self.completed }
    }
}

impl Default for Task {
    fn default() -> (task: Self)
        ensures
            task@ == TaskView::blank(),
    {
        Task { name: String::new(), statement: String::new(), completed: false }
    }
}

} // verus!
