//! What holds of every store, proved of the transitions on its state.

use vstd::prelude::*;
use crate::store::{
    creations, flatten, holds_once, pairs_of, resolve, Entry, ListView, Row, Step, StoreState,
};
use crate::{TaskId, TaskView};

verus! {

/// Flattening distributes over concatenation.
pub proof fn lemma_flatten_concat(front: Seq<ListView>, back: Seq<ListView>)
    ensures
        flatten(front + back) == flatten(front) + flatten(back),
    decreases back.len(),
{
    if back.len() == 0 {
        assert(front + back =~= front);
        assert(flatten(front) + flatten(back) =~= flatten(front));
    } else {
        lemma_flatten_concat(front, back.drop_last());
        assert((front + back).drop_last() =~= front + back.drop_last());
        assert((front + back).last() == back.last());
        assert(flatten(front) + (flatten(back.drop_last()) + pairs_of(back.last())) =~= (flatten(
            front,
        ) + flatten(back.drop_last())) + pairs_of(back.last()));
    }
}

/// One list flattens into its own pairs.
pub proof fn lemma_flatten_single(list: ListView)
    ensures
        flatten(seq![list]) == pairs_of(list),
{
    reveal_with_fuel(flatten, 2);
    assert(seq![list].drop_last() =~= Seq::<ListView>::empty());
    assert(flatten(seq![list]) =~= pairs_of(list));
}

/// Every flattened pair comes from one of the lists: it carries that
/// list's name and one of its ids.
pub proof fn lemma_flatten_origin(lists: Seq<ListView>, k: int)
    requires
        0 <= k < flatten(lists).len(),
    ensures
        exists|i: int|
            0 <= i < lists.len() && #[trigger] lists[i].name == flatten(lists)[k].0
                && lists[i].ids.contains(flatten(lists)[k].1),
    decreases lists.len(),
{
    let front = flatten(lists.drop_last());
    if k < front.len() {
        lemma_flatten_origin(lists.drop_last(), k);
        let i = choose|i: int|
            0 <= i < lists.drop_last().len() && #[trigger] lists.drop_last()[i].name == front[k].0
                && lists.drop_last()[i].ids.contains(front[k].1);
        assert(lists[i].name == flatten(lists)[k].0);
    } else {
        let i = lists.len() - 1;
        let j = k - front.len();
        assert(flatten(lists)[k] == pairs_of(lists.last())[j]);
        assert(lists[i].ids[j] == flatten(lists)[k].1);
        assert(lists[i].name == flatten(lists)[k].0);
    }
}

/// Every operation keeps the store valid.
pub proof fn law_step_keeps_valid(store: StoreState, step: Step)
    requires
        store.valid(),
    ensures
        store.step(step).valid(),
{
    match step {
        Step::Attach { id, list } => {
            if store.has_list(list) {
                let i = store.list_index(list);
                assert(store.lists[i].name == list);
            }
        },
        Step::DeleteList { list } => {},
        _ => {},
    }
}

/// Referential consistency: where every attached id has a task and no id
/// is attached twice, every operation keeps it so, as long as an id is
/// attached only once it has a task and only where no list holds it yet.
pub proof fn law_step_keeps_references(store: StoreState, step: Step)
    requires
        store.valid(),
        store.referenced(),
        store.exclusive(),
        step matches Step::Attach { id, .. } ==> store.tasks.contains_key(id) && !store.attaches(
            id,
        ),
    ensures
        store.step(step).referenced(),
        store.step(step).exclusive(),
{
    let after = store.step(step);
    match step {
        Step::Attach { id, list } => {
            if store.has_list(list) {
                let at = store.list_index(list);
                assert forall|i: int, a: int|
                    0 <= i < after.lists.len() && 0 <= a < after.lists[i].ids.len() implies (
                #[trigger] after.lists[i].ids[a] == id && i == at && a == store.lists[at].ids.len())
                    || (0 <= a < store.lists[i].ids.len() && after.lists[i].ids[a]
                    == store.lists[i].ids[a]) by {}
            } else {
                assert forall|i: int, a: int|
                    0 <= i < after.lists.len() && 0 <= a < after.lists[i].ids.len() implies (
                #[trigger] after.lists[i].ids[a] == id && i == store.lists.len() && a == 0) || (i
                    < store.lists.len() && 0 <= a < store.lists[i].ids.len()
                    && after.lists[i].ids[a] == store.lists[i].ids[a]) by {}
            }
        },
        Step::DeleteList { list } => {
            if store.has_list(list) {
                let at = store.list_index(list);
                let gone = store.lists[at].ids;
                assert forall|i: int, a: int|
                    0 <= i < after.lists.len() && 0 <= a < after.lists[i].ids.len() implies {
                    let from = if i < at {
                        i
                    } else {
                        i + 1
                    };
                    &&& #[trigger] after.lists[i].ids[a] == store.lists[from].ids[a]
                    &&& after.tasks.contains_key(after.lists[i].ids[a])
                } by {
                    let from = if i < at {
                        i
                    } else {
                        i + 1
                    };
                    let id = store.lists[from].ids[a];
                    assert(after.lists[i] == store.lists[from]);
                    if gone.contains(id) {
                        let b = choose|b: int| 0 <= b < gone.len() && gone[b] == id;
                        assert(store.lists[at].ids[b] == store.lists[from].ids[a]);
                    }
                }
            }
        },
        _ => {},
    }
}

/// Identifiers come in sequence: whatever operations run, deletions among
/// them, the counter moves by one for each creation and by nothing else.
/// A creation hands out the counter's value, so the creations hand out
/// consecutive ids; and the id that comes next has no task, whatever was
/// deleted before: none is used twice.
pub proof fn law_ids_in_sequence(store: StoreState, steps: Seq<Step>)
    requires
        store.valid(),
        store.next_id + creations(steps) <= u64::MAX,
    ensures
        store.run(steps).valid(),
        store.run(steps).next_id == store.next_id + creations(steps),
        !store.run(steps).tasks.contains_key((store.next_id + creations(steps)) as TaskId),
    decreases steps.len(),
{
    if steps.len() > 0 {
        law_ids_in_sequence(store, steps.drop_last());
        law_step_keeps_valid(store.run(steps.drop_last()), steps.last());
    }
}

/// From the empty store the ids are 0, 1, 2 and so on: after any
/// operations the next id is the number of creations among them.
pub proof fn law_ids_count_from_zero(steps: Seq<Step>)
    requires
        creations(steps) <= u64::MAX,
    ensures
        StoreState::empty().run(steps).valid(),
        StoreState::empty().run(steps).next_id == creations(steps),
{
    law_ids_in_sequence(StoreState::empty(), steps);
}

/// Setting one field of a task leaves its other two fields, every other
/// task, the counter and the lists as they were.
pub proof fn law_field_isolation(
    store: StoreState,
    id: TaskId,
    text: Seq<char>,
    flag: bool,
)
    requires
        store.tasks.contains_key(id),
    ensures
        store.with_name(id, text).tasks[id].statement == store.tasks[id].statement,
        store.with_name(id, text).tasks[id].completed == store.tasks[id].completed,
        store.with_statement(id, text).tasks[id].name == store.tasks[id].name,
        store.with_statement(id, text).tasks[id].completed == store.tasks[id].completed,
        store.with_completed(id, flag).tasks[id].name == store.tasks[id].name,
        store.with_completed(id, flag).tasks[id].statement == store.tasks[id].statement,
        store.with_name(id, text).tasks.remove(id) == store.tasks.remove(id),
        store.with_statement(id, text).tasks.remove(id) == store.tasks.remove(id),
        store.with_completed(id, flag).tasks.remove(id) == store.tasks.remove(id),
        store.with_name(id, text).lists == store.lists,
        store.with_statement(id, text).lists == store.lists,
        store.with_completed(id, flag).lists == store.lists,
        store.with_name(id, text).next_id == store.next_id,
        store.with_statement(id, text).next_id == store.next_id,
        store.with_completed(id, flag).next_id == store.next_id,
{
    assert(store.with_name(id, text).tasks.remove(id) =~= store.tasks.remove(id));
    assert(store.with_statement(id, text).tasks.remove(id) =~= store.tasks.remove(id));
    assert(store.with_completed(id, flag).tasks.remove(id) =~= store.tasks.remove(id));
}

/// What a setter stored is what the getter of the same field finds.
pub proof fn law_round_trip(store: StoreState, id: TaskId, text: Seq<char>, flag: bool)
    ensures
        store.with_name(id, text).tasks.contains_key(id),
        store.with_name(id, text).tasks[id].name == text,
        store.with_statement(id, text).tasks.contains_key(id),
        store.with_statement(id, text).tasks[id].statement == text,
        store.with_completed(id, flag).tasks.contains_key(id),
        store.with_completed(id, flag).tasks[id].completed == flag,
{
}

/// What was stored stays: over any later operations that do not delete a
/// list holding the id, the task under the id is still there, and each of
/// its fields that no later setter was given is as it was.
pub proof fn law_fields_stay(store: StoreState, steps: Seq<Step>, id: TaskId)
    requires
        store.valid(),
        store.tasks.contains_key(id),
        store.spares_all(steps, id),
    ensures
        store.run(steps).valid(),
        store.run(steps).tasks.contains_key(id),
        (forall|k: int| 0 <= k < steps.len() ==> !(#[trigger] steps[k] matches Step::SetName {
            id: set,
            ..
        } && set == id)) ==> store.run(steps).tasks[id].name == store.tasks[id].name,
        (forall|k: int|
            0 <= k < steps.len() ==> !(#[trigger] steps[k] matches Step::SetStatement {
                id: set,
                ..
            } && set == id)) ==> store.run(steps).tasks[id].statement
            == store.tasks[id].statement,
        (forall|k: int|
            0 <= k < steps.len() ==> !(#[trigger] steps[k] matches Step::SetCompleted {
                id: set,
                ..
            } && set == id)) ==> store.run(steps).tasks[id].completed
            == store.tasks[id].completed,
    decreases steps.len(),
{
    if steps.len() > 0 {
        let earlier = steps.drop_last();
        law_fields_stay(store, earlier, id);
        law_step_keeps_valid(store.run(earlier), steps.last());
        assert forall|k: int| 0 <= k < earlier.len() implies earlier[k] == steps[k] by {}
    }
}

/// Attaching an id to a list adds the one pair `(list, id)` to the
/// enumeration, at some place, and moves no other pair.
pub proof fn law_attach_adds_one_entry(store: StoreState, id: TaskId, list: Seq<char>)
    requires
        store.valid(),
    ensures
        exists|k: int|
            0 <= k <= store.entries().len() && #[trigger] store.entries().insert(k, (list, id))
                == store.attached(id, list).entries(),
{
    let entry: Entry = (list, id);
    if store.has_list(list) {
        let i = store.list_index(list);
        let found = store.lists[i];
        let grown = ListView { name: list, ids: found.ids.push(id) };
        let front = store.lists.take(i);
        let back = store.lists.skip(i + 1);
        assert(store.lists =~= (front + seq![found]) + back);
        assert(store.attached(id, list).lists =~= (front + seq![grown]) + back);
        lemma_flatten_concat(front + seq![found], back);
        lemma_flatten_concat(front, seq![found]);
        lemma_flatten_concat(front + seq![grown], back);
        lemma_flatten_concat(front, seq![grown]);
        lemma_flatten_single(found);
        lemma_flatten_single(grown);
        assert(pairs_of(grown) =~= pairs_of(found).push(entry));
        let k = flatten(front).len() + pairs_of(found).len();
        assert(store.entries().insert(k as int, entry) =~= store.attached(id, list).entries());
    } else {
        let grown = ListView { name: list, ids: seq![id] };
        assert(store.lists.push(grown).drop_last() =~= store.lists);
        assert(pairs_of(grown) =~= seq![entry]);
        let k = store.entries().len();
        assert(store.entries().insert(k as int, entry) =~= store.attached(id, list).entries());
    }
}

/// A pair that the enumeration did not hold is held exactly once after its
/// id was attached to its list.
pub proof fn law_attached_once(store: StoreState, id: TaskId, list: Seq<char>)
    requires
        store.valid(),
        !store.entries().contains((list, id)),
    ensures
        holds_once(store.attached(id, list).entries(), (list, id)),
{
    law_attach_adds_one_entry(store, id, list);
    let entry: Entry = (list, id);
    let before = store.entries();
    let after = store.attached(id, list).entries();
    let k = choose|k: int| 0 <= k <= before.len() && #[trigger] before.insert(k, entry) == after;
    assert(after[k] == entry);
    assert forall|j: int| 0 <= j < after.len() && #[trigger] after[j] == entry implies j == k by {
        if j < k {
            assert(after[j] == before[j]);
        } else if j > k {
            assert(after[j] == before[j - 1]);
        }
    }
}

/// A new task is in the enumeration exactly once, under its list, and was
/// not there before it was attached. This is stated of stores in which
/// nobody attached the id before it was handed out.
pub proof fn law_new_task_enumerated_once(
    store: StoreState,
    name: Seq<char>,
    statement: Seq<char>,
    list: Seq<char>,
)
    requires
        store.valid(),
        store.next_id < u64::MAX,
        !store.entries().contains((list, store.next_id as TaskId)),
    ensures
        ({
            let id = store.next_id as TaskId;
            let prepared = store.created().with_name(id, name).with_statement(
                id,
                statement,
            ).with_completed(id, false);
            let after = store.with_new_task(name, statement, list).entries();
            &&& !prepared.entries().contains((list, id))
            &&& holds_once(after, (list, id))
        }),
{
    let id = store.next_id as TaskId;
    let prepared = store.created().with_name(id, name).with_statement(id, statement).with_completed(
        id,
        false,
    );
    law_step_keeps_valid(store, Step::Create);
    law_step_keeps_valid(store.created(), Step::SetName { id, name });
    law_step_keeps_valid(store.created().with_name(id, name), Step::SetStatement { id, statement });
    law_step_keeps_valid(
        store.created().with_name(id, name).with_statement(id, statement),
        Step::SetCompleted { id, completed: false },
    );
    law_attached_once(prepared, id, list);
}

/// A sequence whose elements all meet the filter passes it unchanged.
pub proof fn lemma_filter_keeps_all(entries: Seq<Entry>, keep: spec_fn(Entry) -> bool)
    requires
        forall|k: int| 0 <= k < entries.len() ==> keep(#[trigger] entries[k]),
    ensures
        entries.filter(keep) == entries,
    decreases entries.len(),
{
    reveal(Seq::filter);
    if entries.len() > 0 {
        lemma_filter_keeps_all(entries.drop_last(), keep);
        assert(entries.drop_last().push(entries.last()) =~= entries);
    }
}

/// Lists of other names contribute no pair of the name.
pub proof fn lemma_other_lists_filtered_out(lists: Seq<ListView>, name: Seq<char>)
    requires
        forall|i: int| 0 <= i < lists.len() ==> (#[trigger] lists[i]).name != name,
    ensures
        flatten(lists).filter(|entry: Entry| entry.0 == name) == Seq::<Entry>::empty(),
{
    let keep = |entry: Entry| entry.0 == name;
    let all = flatten(lists);
    assert forall|k: int| 0 <= k < all.len() implies !keep(#[trigger] all[k]) by {
        lemma_flatten_origin(lists, k);
    }
    assert(all.all(|entry: Entry| !keep(entry)));
    all.lemma_all_neg_filter_empty(keep);
    assert(all.filter(keep) =~= Seq::<Entry>::empty());
}

/// Within a list the enumeration keeps the order of attachment: its pairs
/// of one list are that list's ids, oldest first.
pub proof fn law_enumeration_keeps_attachment_order(store: StoreState, list: Seq<char>)
    requires
        store.valid(),
    ensures
        store.entries().filter(|entry: Entry| entry.0 == list) == pairs_of(
            ListView { name: list, ids: store.members(list) },
        ),
{
    let keep = |entry: Entry| entry.0 == list;
    if store.has_list(list) {
        let i = store.list_index(list);
        let found = store.lists[i];
        let front = store.lists.take(i);
        let back = store.lists.skip(i + 1);
        assert(store.lists =~= (front + seq![found]) + back);
        lemma_flatten_concat(front + seq![found], back);
        lemma_flatten_concat(front, seq![found]);
        lemma_flatten_single(found);
        assert forall|j: int| 0 <= j < front.len() implies (#[trigger] front[j]).name != list by {
            assert(front[j] == store.lists[j]);
        }
        assert forall|j: int| 0 <= j < back.len() implies (#[trigger] back[j]).name != list by {
            assert(back[j] == store.lists[i + 1 + j]);
        }
        lemma_other_lists_filtered_out(front, list);
        lemma_other_lists_filtered_out(back, list);
        lemma_filter_keeps_all(pairs_of(found), keep);
        Seq::filter_distributes_over_add(flatten(front) + pairs_of(found), flatten(back), keep);
        Seq::filter_distributes_over_add(flatten(front), pairs_of(found), keep);
        assert(found == ListView { name: list, ids: store.members(list) });
        assert(store.entries().filter(keep) =~= pairs_of(found));
    } else {
        lemma_other_lists_filtered_out(store.lists, list);
        assert(pairs_of(ListView { name: list, ids: store.members(list) }) =~= Seq::<
            Entry,
        >::empty());
    }
}

/// The rows are the entries whose id has a task, in their order, each with
/// that task.
pub proof fn law_rows_are_the_resolvable_entries(store: StoreState)
    ensures
        store.rows() == store.entries().filter(
            |entry: Entry| store.tasks.contains_key(entry.1),
        ).map_values(|entry: Entry| (entry.0, entry.1, store.tasks[entry.1])),
{
    lemma_resolve_is_filter_map(store.entries(), store.tasks);
}

/// `resolve` keeps the entries whose id has a task and pairs each with it.
pub proof fn lemma_resolve_is_filter_map(entries: Seq<Entry>, tasks: Map<TaskId, TaskView>)
    ensures
        resolve(entries, tasks) == entries.filter(
            |entry: Entry| tasks.contains_key(entry.1),
        ).map_values(|entry: Entry| (entry.0, entry.1, tasks[entry.1])),
    decreases entries.len(),
{
    let keep = |entry: Entry| tasks.contains_key(entry.1);
    let with_task = |entry: Entry| (entry.0, entry.1, tasks[entry.1]);
    reveal(Seq::filter);
    if entries.len() > 0 {
        lemma_resolve_is_filter_map(entries.drop_last(), tasks);
        let rest = entries.drop_last().filter(keep);
        if keep(entries.last()) {
            assert(entries.filter(keep) =~= rest.push(entries.last()));
            assert(rest.push(entries.last()).map_values(with_task) =~= rest.map_values(
                with_task,
            ).push(with_task(entries.last())));
        } else {
            assert(entries.filter(keep) =~= rest);
        }
    } else {
        assert(entries.filter(keep).map_values(with_task) =~= Seq::<Row>::empty());
    }
}

/// Deleting a list deletes the task of every id that it held, and leaves
/// no pair of that list in the enumeration.
pub proof fn law_delete_is_consistent(store: StoreState, list: Seq<char>, id: TaskId)
    requires
        store.valid(),
    ensures
        store.members(list).contains(id) ==> !store.without_list(list).tasks.contains_key(id),
        forall|k: int|
            0 <= k < store.without_list(list).entries().len() ==> (
            #[trigger] store.without_list(list).entries()[k]).0 != list,
        !store.without_list(list).has_list(list),
{
    let after = store.without_list(list);
    if store.has_list(list) {
        let i = store.list_index(list);
        assert(store.lists[i].name == list);
        assert forall|j: int| 0 <= j < after.lists.len() implies after.lists[j].name != list by {
            if j < i {
                assert(after.lists[j] == store.lists[j]);
            } else {
                assert(after.lists[j] == store.lists[j + 1]);
            }
        }
    }
    assert(!after.has_list(list));
    assert forall|k: int| 0 <= k < after.entries().len() implies (#[trigger] after.entries()[k]).0
        != list by {
        lemma_flatten_origin(after.lists, k);
    }
}

/// Deleting a list that does not exist changes nothing.
pub proof fn law_delete_absent_list(store: StoreState, list: Seq<char>)
    requires
        !store.has_list(list),
    ensures
        store.without_list(list) == store,
{
}

/// An id that was never handed out has no task, so every getter and
/// setter answers it with the not-found error.
pub proof fn law_unknown_id_has_no_task(store: StoreState, id: TaskId)
    requires
        store.valid(),
        id >= store.next_id,
    ensures
        !store.tasks.contains_key(id),
{
}

} // verus!
