//! The in-memory store: tasks in a hash map by id, lists in creation order.

use std::collections::HashMap;
use vstd::prelude::*;
use crate::store::{flatten, pairs_of, ListView, StoreState};
use crate::task_model::{entries_view, not_found_message, TaskModel};
use crate::{ListId, Task, TaskId, TaskView};

verus! {

broadcast use vstd::std_specs::hash::group_hash_axioms;

/// A task store held in memory.
#[derive(Debug, Clone)]
pub struct HashMapModel {
    task_storage: HashMap<TaskId, Task>,
    task_next_empty_id: u64,
    list_storage: Vec<(ListId, Vec<TaskId>)>,
}

/// The mathematical value of the stored tasks.
spec fn tasks_view(storage: Map<TaskId, Task>) -> Map<TaskId, TaskView> {
    Map::new(|id: TaskId| storage.contains_key(id), |id: TaskId| storage[id]@)
}

/// The mathematical value of the stored lists.
spec fn lists_view(storage: Seq<(ListId, Vec<TaskId>)>) -> Seq<ListView> {
    Seq::new(storage.len(), |i: int| ListView { name: storage[i].0@, ids: storage[i].1@ })
}

impl View for HashMapModel {
    type V = StoreState;

    closed spec fn view(&self) -> StoreState {
        StoreState {
            tasks: tasks_view(self.task_storage@),
            next_id: self.task_next_empty_id as nat,
            lists: lists_view(self.list_storage@),
        }
    }
}

impl HashMapModel {
    /// An empty store, whose first task will have id 0.
    pub fn new() -> (model: Self)
        ensures
            model.wf(),
            model@ == StoreState::empty(),
    {
        let model = HashMapModel {
            task_storage: HashMap::new(),
            task_next_empty_id: 0,
            list_storage: Vec::new(),
        };
        assert(model@.tasks =~= Map::empty());
        assert(model@.lists =~= Seq::empty());
        model
    }

    /// The task under `task_id`, or the not-found error.
    pub fn get_task(&self, task_id: TaskId) -> (result: Result<&Task, String>)
        ensures
            match result {
                Ok(task) => self@.tasks.contains_key(task_id) && task@ == self@.tasks[task_id],
                Err(message) => !self@.tasks.contains_key(task_id) && message@
                    == not_found_message(),
            },
    {
        match self.task_storage.get(&task_id) {
            None => Err("No task for given task_id".to_owned()),
            Some(task) => Ok(task),
        }
    }

    /// How many tasks the store holds, attached to a list or not.
    pub fn task_count(&self) -> (count: usize)
        ensures
            count == self@.tasks.dom().len(),
    {
        assert(self@.tasks.dom() =~= self.task_storage@.dom());
        self.task_storage.len()
    }

    /// Takes the task under `task_id` out of the map, or returns the
    /// not-found error and leaves the map as it is.
    fn take_task(&mut self, task_id: TaskId) -> (result: Result<Task, String>)
        ensures
            final(self).task_next_empty_id == old(self).task_next_empty_id,
            final(self).list_storage == old(self).list_storage,
            match result {
                Ok(task) => {
                    &&& old(self).task_storage@.contains_key(task_id)
                    &&& task == old(self).task_storage@[task_id]
                    &&& final(self).task_storage@ == old(self).task_storage@.remove(task_id)
                },
                Err(message) => {
                    &&& !old(self).task_storage@.contains_key(task_id)
                    &&& final(self).task_storage@ == old(self).task_storage@
                    &&& message@ == not_found_message()
                },
            },
    {
        match self.task_storage.remove(&task_id) {
            None => Err("No task for given task_id".to_owned()),
            Some(task) => Ok(task),
        }
    }

    /// The position of the list named `list_id`, if there is one.
    fn find_list(&self, list_id: &ListId) -> (found: Option<usize>)
        ensures
            match found {
                Some(i) => i < self.list_storage@.len() && self.list_storage@[i as int].0@
                    == list_id@,
                None => forall|j: int|
                    0 <= j < self.list_storage@.len() ==> self.list_storage@[j].0@ != list_id@,
            },
    {
        let mut i: usize = 0;
        while i < self.list_storage.len()
            invariant
                i <= self.list_storage@.len(),
                forall|j: int| 0 <= j < i ==> self.list_storage@[j].0@ != list_id@,
            decreases self.list_storage@.len() - i,
        {
            if self.list_storage[i].0 == *list_id {
                return Some(i);
            }
            i += 1;
        }
        None
    }
}

impl TaskModel for HashMapModel {
    open spec fn store(&self) -> StoreState {
        self@
    }

    closed spec fn wf(&self) -> bool {
        self@.valid()
    }

    proof fn wf_is_valid(&self) {
    }

    fn create_task(&mut self) -> (result: Result<TaskId, String>) {
        if self.task_next_empty_id == u64::MAX {
            return Err("Failed to create new task, already exists".to_owned());
        }
        let new_task = Task::default();
        assert(!self@.tasks.contains_key(self.task_next_empty_id));
        match self.task_storage.insert(self.task_next_empty_id, new_task) {
            None => {
                let result = self.task_next_empty_id;
                self.task_next_empty_id += 1;
                assert(self@.tasks =~= old(self)@.created().tasks);
                Ok(result)
            },
            Some(_) => Err("Failed to create new task, already exists".to_owned()),
        }
    }

    fn set_task_name(&mut self, task_id: TaskId, name: &String) -> (result: Result<(), String>) {
        let task = self.take_task(task_id)?;
        let renamed = Task { name: name.clone(), statement: task.statement, completed: task.completed };
        self.task_storage.insert(task_id, renamed);
        assert(self@.tasks =~= old(self)@.with_name(task_id, name@).tasks);
        Ok(())
    }

    fn set_task_statement(&mut self, task_id: TaskId, statement: &String) -> (result: Result<
        (),
        String,
    >) {
        let task = self.take_task(task_id)?;
        let restated = Task { name: task.name, statement: statement.clone(), completed: task.completed };
        self.task_storage.insert(task_id, restated);
        assert(self@.tasks =~= old(self)@.with_statement(task_id, statement@).tasks);
        Ok(())
    }

    fn set_task_completed(&mut self, task_id: TaskId, completed: bool) -> (result: Result<
        (),
        String,
    >) {
        let task = self.take_task(task_id)?;
        let marked = Task { name: task.name, statement: task.statement, completed };
        self.task_storage.insert(task_id, marked);
        assert(self@.tasks =~= old(self)@.with_completed(task_id, completed).tasks);
        Ok(())
    }

    fn set_task_list(&mut self, task_id: TaskId, list_id: ListId) -> (result: Result<(), String>) {
        match self.find_list(&list_id) {
            Some(i) => {
                let (name, mut ids) = self.list_storage.remove(i);
                ids.push(task_id);
                self.list_storage.insert(i, (name, ids));
                proof {
                    let before = old(self)@;
                    assert(before.lists[i as int].name == list_id@);
                    assert(before.has_list(list_id@));
                    assert(before.list_index(list_id@) == i);
                    assert(self@.lists =~= before.attached(task_id, list_id@).lists);
                }
            },
            None => {
                let mut ids: Vec<TaskId> = Vec::new();
                ids.push(task_id);
                self.list_storage.push((list_id, ids));
                proof {
                    let before = old(self)@;
                    assert(!before.has_list(list_id@));
                    assert(self@.lists =~= before.attached(task_id, list_id@).lists);
                }
            },
        }
        Ok(())
    }

    fn get_all_tasks(&self) -> (result: Result<Vec<(ListId, TaskId)>, String>) {
        let mut pairs: Vec<(ListId, TaskId)> = Vec::new();
        let mut i: usize = 0;
        while i < self.list_storage.len()
            invariant
                i <= self.list_storage@.len(),
                entries_view(pairs@) == flatten(self@.lists.take(i as int)),
            decreases self.list_storage@.len() - i,
        {
            let ghost done = entries_view(pairs@);
            let ids = &self.list_storage[i].1;
            let mut j: usize = 0;
            while j < ids.len()
                invariant
                    i < self.list_storage@.len(),
                    ids == &self.list_storage@[i as int].1,
                    j <= ids@.len(),
                    entries_view(pairs@) == done + pairs_of(self@.lists[i as int]).take(j as int),
                decreases ids@.len() - j,
            {
                let ghost earlier = pairs@;
                pairs.push((self.list_storage[i].0.clone(), ids[j]));
                assert(self@.lists[i as int] == ListView {
                    name: self.list_storage@[i as int].0@,
                    ids: ids@,
                });
                proof {
                    let of_list = pairs_of(self@.lists[i as int]);
                    assert(of_list.take(j as int + 1) =~= of_list.take(j as int).push(
                        of_list[j as int],
                    ));
                    assert(entries_view(pairs@) =~= entries_view(earlier).push(of_list[j as int]));
                    assert(entries_view(pairs@) =~= done + of_list.take(j as int + 1));
                }
                j += 1;
            }
            proof {
                let lists = self@.lists;
                assert(lists.take(i as int + 1).drop_last() =~= lists.take(i as int));
                assert(pairs_of(lists[i as int]).take(j as int) =~= pairs_of(lists[i as int]));
            }
            i += 1;
        }
        assert(self@.lists.take(i as int) =~= self@.lists);
        Ok(pairs)
    }

    fn get_task_name(&self, task_id: TaskId) -> (result: Result<String, String>) {
        Ok(self.get_task(task_id)?.name.clone())
    }

    fn get_task_statement(&self, task_id: TaskId) -> (result: Result<String, String>) {
        Ok(self.get_task(task_id)?.statement.clone())
    }

    fn get_task_completed(&self, task_id: TaskId) -> (result: Result<bool, String>) {
        Ok(self.get_task(task_id)?.completed)
    }

    fn delete_task_list(&mut self, list_id: ListId) -> (result: Result<(), String>) {
        match self.find_list(&list_id) {
            None => {
                assert(!old(self)@.has_list(list_id@));
            },
            Some(i) => {
                let (_, ids) = self.list_storage.remove(i);
                let ghost stored = self.task_storage@;
                proof {
                    let before = old(self)@;
                    assert(before.lists[i as int].name == list_id@);
                    assert(before.has_list(list_id@));
                    assert(before.list_index(list_id@) == i);
                    assert(self@.lists =~= before.lists.remove(i as int));
                    assert(ids@ == before.members(list_id@));
                }
                let mut k: usize = 0;
                while k < ids.len()
                    invariant
                        k <= ids@.len(),
                        i < old(self).list_storage@.len(),
                        self.task_next_empty_id == old(self).task_next_empty_id,
                        self.list_storage@ == old(self).list_storage@.remove(i as int),
                        self.task_storage@ =~= stored.remove_keys(ids@.take(k as int).to_set()),
                    decreases ids@.len() - k,
                {
                    self.task_storage.remove(&ids[k]);
                    proof {
                        let taken = ids@.take(k as int);
                        assert(ids@.take(k as int + 1) =~= taken.push(ids@[k as int]));
                        taken.lemma_push_to_set_commute(ids@[k as int]);
                    }
                    k += 1;
                }
                proof {
                    assert(ids@.take(k as int) =~= ids@);
                    assert(self@.tasks =~= old(self)@.without_list(list_id@).tasks);
                }
            },
        }
        Ok(())
    }
}

} // verus!
