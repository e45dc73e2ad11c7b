use mvc::hash_map_model::HashMapModel;
use mvc::task_model::TaskModel;
use mvc::Task;

#[test]
fn test_create_task() -> Result<(), String> {
    let mut model = HashMapModel::new();

    let task_id = model.create_task()?;
    let expected_task = Task::default();
    assert_eq!(model.get_task(task_id), Ok(&expected_task));
    // A task that no list holds is not enumerated.
    assert_eq!(model.get_all_tasks()?.len(), 0_usize);
    Ok(())
}

#[test]
fn test_create_multiple_task() -> Result<(), String> {
    let expected_size = 100_usize;
    let mut model = HashMapModel::new();

    for task_id_outer in 0..expected_size {
        assert_eq!(model.create_task(), Ok(task_id_outer as u64));
    }

    assert_eq!(model.task_count(), expected_size);
    // None of them was attached to a list.
    assert_eq!(model.get_all_tasks()?.len(), 0_usize);
    Ok(())
}

#[test]
fn test_task_name() -> Result<(), String> {
    let mut model = HashMapModel::new();

    let task_id = model.create_task()?;

    let expected_task = Task::default();

    assert_eq!(model.get_task(task_id), Ok(&expected_task));

    model.set_task_name(task_id, &"Some task name".to_string())?;

    let expected_task2 = Task {
        name: "Some task name".to_string(),
        statement: "".to_string(),
        completed: false,
    };

    assert_eq!(model.get_task(task_id), Ok(&expected_task2));
    assert_eq!(model.get_task_name(task_id), Ok("Some task name".to_string()));

    Ok(())
}

#[test]
fn test_task_statement() -> Result<(), String> {
    let mut model = HashMapModel::new();

    let task_id = model.create_task()?;

    let expected_task = Task::default();

    assert_eq!(model.get_task(task_id), Ok(&expected_task));

    model.set_task_statement(task_id, &"Some task statement".to_string())?;

    let expected_task2 = Task {
        name: "".to_string(),
        statement: "Some task statement".to_string(),
        completed: false,
    };

    assert_eq!(model.get_task(task_id), Ok(&expected_task2));
    assert_eq!(model.get_task_statement(task_id), Ok("Some task statement".to_string()));

    Ok(())
}

#[test]
fn test_task_completed() -> Result<(), String> {
    let mut model = HashMapModel::new();

    let task_id = model.create_task()?;

    let expected_task = Task::default();

    assert_eq!(model.get_task(task_id), Ok(&expected_task));

    model.set_task_completed(task_id, true)?;

    let expected_task2 = Task {
        name: "".to_string(),
        statement: "".to_string(),
        completed: true,
    };

    assert_eq!(model.get_task(task_id), Ok(&expected_task2));
    assert_eq!(model.get_task_completed(task_id), Ok(true));

    Ok(())
}

#[test]
fn test_task_multiple_fields() -> Result<(), String> {
    let mut model = HashMapModel::new();

    let task_id = model.create_task()?;

    let expected_task = Task::default();

    assert_eq!(model.get_task(task_id), Ok(&expected_task));

    model.set_task_name(task_id, &"Some task name".to_string())?;
    model.set_task_statement(task_id, &"Some task statement".to_string())?;
    model.set_task_completed(task_id, true)?;

    let expected_task2 = Task {
        name: "Some task name".to_string(),
        statement: "Some task statement".to_string(),
        completed: true,
    };

    assert_eq!(model.get_task(task_id), Ok(&expected_task2));

    assert_eq!(model.get_task_name(task_id), Ok("Some task name".to_string()));
    assert_eq!(model.get_task_statement(task_id), Ok("Some task statement".to_string()));
    assert_eq!(model.get_task_completed(task_id), Ok(true));

    Ok(())
}

fn not_found<T>() -> Result<T, String> {
    Err("No task for given task_id".to_string())
}

#[test]
fn default_task_is_blank() {
    let task = Task::default();
    assert_eq!(task.name, "");
    assert_eq!(task.statement, "");
    assert!(!task.completed);
}

#[test]
fn new_store_is_empty() {
    let model = HashMapModel::new();
    assert_eq!(model.task_count(), 0);
    assert_eq!(model.get_all_tasks(), Ok(vec![]));
    assert_eq!(model.get_task(0), not_found());
}

#[test]
fn ids_are_sequential_across_deletions() {
    let mut model = HashMapModel::new();
    assert_eq!(model.create_task(), Ok(0));
    assert_eq!(model.create_task(), Ok(1));
    model.set_task_list(0, "a".to_string()).unwrap();
    model.set_task_list(1, "a".to_string()).unwrap();
    model.delete_task_list("a".to_string()).unwrap();
    assert_eq!(model.task_count(), 0);
    assert_eq!(model.create_task(), Ok(2));
    assert_eq!(model.create_task(), Ok(3));
    assert_eq!(model.task_count(), 2);
}

#[test]
fn setting_one_field_keeps_the_others() {
    let mut model = HashMapModel::new();
    let id = model.create_task().unwrap();
    model.set_task_name(id, &"n".to_string()).unwrap();
    model.set_task_statement(id, &"s".to_string()).unwrap();
    model.set_task_completed(id, true).unwrap();

    model.set_task_name(id, &"n2".to_string()).unwrap();
    assert_eq!(model.get_task_statement(id), Ok("s".to_string()));
    assert_eq!(model.get_task_completed(id), Ok(true));

    model.set_task_statement(id, &"s2".to_string()).unwrap();
    assert_eq!(model.get_task_name(id), Ok("n2".to_string()));
    assert_eq!(model.get_task_completed(id), Ok(true));

    model.set_task_completed(id, false).unwrap();
    assert_eq!(model.get_task_name(id), Ok("n2".to_string()));
    assert_eq!(model.get_task_statement(id), Ok("s2".to_string()));
}

#[test]
fn setters_leave_other_tasks_alone() {
    let mut model = HashMapModel::new();
    let first = model.create_task().unwrap();
    let second = model.create_task().unwrap();
    model.set_task_name(first, &"first".to_string()).unwrap();
    model.set_task_name(second, &"second".to_string()).unwrap();
    assert_eq!(model.get_task_name(first), Ok("first".to_string()));
    assert_eq!(model.get_task_name(second), Ok("second".to_string()));
    assert_eq!(model.task_count(), 2);
}

#[test]
fn round_trip_of_each_field() {
    let mut model = HashMapModel::new();
    let id = model.create_task().unwrap();
    model.set_task_name(id, &"x".to_string()).unwrap();
    assert_eq!(model.get_task_name(id), Ok("x".to_string()));
    model.set_task_statement(id, &"y".to_string()).unwrap();
    assert_eq!(model.get_task_statement(id), Ok("y".to_string()));
    model.set_task_completed(id, true).unwrap();
    assert_eq!(model.get_task_completed(id), Ok(true));
}

#[test]
fn attached_task_is_enumerated_once() {
    let mut model = HashMapModel::new();
    let id = model.create_task().unwrap();
    model.set_task_name(id, &"n".to_string()).unwrap();
    model.set_task_statement(id, &"s".to_string()).unwrap();
    model.set_task_completed(id, false).unwrap();
    assert_eq!(model.get_all_tasks(), Ok(vec![]));
    model.set_task_list(id, "L".to_string()).unwrap();
    assert_eq!(model.get_all_tasks(), Ok(vec![("L".to_string(), id)]));
}

#[test]
fn enumeration_keeps_attachment_order() {
    let mut model = HashMapModel::new();
    for _ in 0..4 {
        model.create_task().unwrap();
    }
    model.set_task_list(2, "a".to_string()).unwrap();
    model.set_task_list(0, "b".to_string()).unwrap();
    model.set_task_list(3, "a".to_string()).unwrap();
    model.set_task_list(1, "a".to_string()).unwrap();
    assert_eq!(
        model.get_all_tasks(),
        Ok(vec![
            ("a".to_string(), 2),
            ("a".to_string(), 3),
            ("a".to_string(), 1),
            ("b".to_string(), 0),
        ])
    );
}

#[test]
fn deleting_a_list_deletes_its_tasks() {
    let mut model = HashMapModel::new();
    let a = model.create_task().unwrap();
    let b = model.create_task().unwrap();
    let c = model.create_task().unwrap();
    model.set_task_list(a, "L".to_string()).unwrap();
    model.set_task_list(b, "L".to_string()).unwrap();
    model.set_task_list(c, "M".to_string()).unwrap();
    assert_eq!(model.delete_task_list("L".to_string()), Ok(()));
    assert_eq!(model.get_task_name(a), not_found());
    assert_eq!(model.get_task_name(b), not_found());
    assert_eq!(model.get_task_name(c), Ok("".to_string()));
    assert_eq!(model.get_all_tasks(), Ok(vec![("M".to_string(), c)]));
}

#[test]
fn deleting_an_absent_list_changes_nothing() {
    let mut model = HashMapModel::new();
    let id = model.create_task().unwrap();
    model.set_task_name(id, &"kept".to_string()).unwrap();
    model.set_task_list(id, "L".to_string()).unwrap();
    assert_eq!(model.delete_task_list("nonexistent".to_string()), Ok(()));
    assert_eq!(model.get_task_name(id), Ok("kept".to_string()));
    assert_eq!(model.get_all_tasks(), Ok(vec![("L".to_string(), id)]));
    assert_eq!(model.task_count(), 1);
    assert_eq!(model.create_task(), Ok(1));
}

#[test]
fn unknown_id_is_not_found_everywhere() {
    let mut model = HashMapModel::new();
    model.create_task().unwrap();
    assert_eq!(model.get_task(1), not_found());
    assert_eq!(model.get_task_name(1), not_found());
    assert_eq!(model.get_task_statement(1), not_found());
    assert_eq!(model.get_task_completed(1), not_found());
    assert_eq!(model.set_task_name(1, &"x".to_string()), not_found());
    assert_eq!(model.set_task_statement(1, &"x".to_string()), not_found());
    assert_eq!(model.set_task_completed(1, true), not_found());
    assert_eq!(model.task_count(), 1);
    assert_eq!(model.get_task(0), Ok(&Task::default()));
}

#[test]
fn attaching_an_unknown_id_is_accepted() {
    let mut model = HashMapModel::new();
    assert_eq!(model.set_task_list(5, "L".to_string()), Ok(()));
    assert_eq!(model.get_all_tasks(), Ok(vec![("L".to_string(), 5)]));
    assert_eq!(model.get_task_name(5), not_found());
}

#[test]
fn shared_id_dangles_after_deletion() {
    let mut model = HashMapModel::new();
    let id = model.create_task().unwrap();
    model.set_task_list(id, "one".to_string()).unwrap();
    model.set_task_list(id, "two".to_string()).unwrap();
    model.delete_task_list("one".to_string()).unwrap();
    assert_eq!(model.get_all_tasks(), Ok(vec![("two".to_string(), id)]));
    assert_eq!(model.get_task_name(id), not_found());
}
