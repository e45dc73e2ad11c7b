use mvc::hash_map_model::HashMapModel;
use mvc::simple_controller::SimpleController;
use mvc::simple_viewer::{is_safe_template, SimpleViewer};
use mvc::task_controller::TaskController;
use mvc::task_model::TaskModel;
use mvc::task_viewer::TaskViewer;
use mvc::Task;

const TEMPLATE: &str = "{{ for task in tasks }}{task.0}|{task.1}|{task.2.name}|{task.2.statement}|{{ if task.2.completed }}done{{ else }}open{{ endif }};{{ endfor }}";

fn controller(template: &str) -> SimpleController<HashMapModel, SimpleViewer> {
    SimpleController {
        model: Box::new(HashMapModel::new()),
        viewer: Box::new(SimpleViewer::new(template.to_string())),
    }
}

#[test]
fn scenario_buy_milk() {
    let mut controller = controller(TEMPLATE);
    assert_eq!(
        controller.create_new_undone_task(
            "Buy milk".to_string(),
            "2 liters".to_string(),
            "groceries".to_string()
        ),
        Ok(())
    );
    assert_eq!(controller.model.get_all_tasks(), Ok(vec![("groceries".to_string(), 0)]));
    assert_eq!(controller.model.get_task_name(0), Ok("Buy milk".to_string()));
    assert_eq!(controller.model.get_task_statement(0), Ok("2 liters".to_string()));
    assert_eq!(controller.model.get_task_completed(0), Ok(false));

    assert_eq!(controller.update_task_done(0), Ok(()));
    assert_eq!(controller.model.get_task_completed(0), Ok(true));

    assert_eq!(controller.delete_task_list("groceries".to_string()), Ok(()));
    assert_eq!(controller.model.get_all_tasks(), Ok(vec![]));
    assert_eq!(
        controller.model.get_task_name(0),
        Err("No task for given task_id".to_string())
    );
}

#[test]
fn update_of_unknown_task_fails() {
    let mut controller = controller(TEMPLATE);
    assert_eq!(controller.update_task_done(3), Err("No task for given task_id".to_string()));
    assert_eq!(controller.model.task_count(), 0);
}

#[test]
fn render_index_fills_the_template() {
    let mut controller = controller(TEMPLATE);
    controller
        .create_new_undone_task("Buy milk".to_string(), "2 liters".to_string(), "groceries".to_string())
        .unwrap();
    controller
        .create_new_undone_task("Call <Bob>".to_string(), "".to_string(), "calls".to_string())
        .unwrap();
    controller.update_task_done(1).unwrap();
    assert_eq!(
        controller.render_index(),
        Ok("groceries|0|Buy milk|2 liters|open;calls|1|Call &lt;Bob&gt;||done;".to_string())
    );
}

#[test]
fn render_of_empty_store() {
    let controller = controller("<ul>{{ for task in tasks }}<li>{task.2.name}</li>{{ endfor }}</ul>");
    assert_eq!(controller.render_index(), Ok("<ul></ul>".to_string()));
}

#[test]
fn viewer_leaves_dangling_ids_out() {
    let mut model = HashMapModel::new();
    let kept = model.create_task().unwrap();
    model.set_task_name(kept, &"kept".to_string()).unwrap();
    model.set_task_list(9, "L".to_string()).unwrap();
    model.set_task_list(kept, "L".to_string()).unwrap();
    assert_eq!(
        SimpleViewer::resolve_rows(&model),
        Ok(vec![(
            "L".to_string(),
            kept,
            Task { name: "kept".to_string(), statement: "".to_string(), completed: false }
        )])
    );
    let viewer = SimpleViewer::new(TEMPLATE.to_string());
    assert_eq!(viewer.get_all_tasks_html(&model), Ok("L|0|kept||open;".to_string()));
}

#[test]
fn broken_template_is_a_render_error() {
    let viewer = SimpleViewer::new("{{ for task in tasks }}never closed".to_string());
    let model = HashMapModel::new();
    assert_eq!(viewer.get_all_tasks_html(&model), Err("Failed to render".to_string()));
}

#[test]
fn unknown_field_is_a_render_error() {
    let mut controller = controller("{{ for task in tasks }}{task.2.missing}{{ endfor }}");
    controller
        .create_new_undone_task("a".to_string(), "b".to_string(), "c".to_string())
        .unwrap();
    assert_eq!(controller.render_index(), Err("Failed to render".to_string()));
}

#[test]
fn engine_outcome_is_mapped() {
    assert_eq!(SimpleViewer::document_or_error(Ok("doc".to_string())), Ok("doc".to_string()));
    let mut engine = tinytemplate::TinyTemplate::new();
    let failure = engine.add_template("broken", "{{ if }").unwrap_err();
    assert_eq!(
        SimpleViewer::document_or_error(Err(failure)),
        Err("Failed to render".to_string())
    );
}

fn render_error() -> Result<String, String> {
    Err("Failed to render".to_string())
}

fn render_one_task(template: &str) -> Result<String, String> {
    let mut controller = controller(template);
    controller
        .create_new_undone_task("a".to_string(), "b".to_string(), "c".to_string())
        .unwrap();
    controller.render_index()
}

#[test]
fn empty_comment_tag_is_a_render_error() {
    assert!(!is_safe_template("{#}"));
    assert_eq!(render_one_task("{#}"), render_error());
    assert_eq!(render_one_task("<p>{#}</p>"), render_error());
}

#[test]
fn negation_without_a_path_is_a_render_error() {
    assert!(!is_safe_template("{{ if not }}"));
    assert_eq!(render_one_task("{{ if not }}"), render_error());
    assert_eq!(render_one_task("{{if not}}x{{endif}}"), render_error());
    assert_eq!(render_one_task("{{ if not -}}x{{ endif }}"), render_error());
    assert_eq!(render_one_task("{{ if not- }}x{{ endif }}"), render_error());
}

#[test]
fn negation_before_a_wide_character_is_a_render_error() {
    assert!(!is_safe_template("{{ if not\u{e9} }}x{{ endif }}"));
    assert_eq!(render_one_task("{{ if not\u{e9} }}x{{ endif }}"), render_error());
    assert_eq!(render_one_task("{{ if not\u{3000}tasks }}x{{ endif }}"), render_error());
}

#[test]
fn trailing_backslash_is_a_render_error() {
    assert!(!is_safe_template("text\\"));
    assert_eq!(render_one_task("text\\"), render_error());
    assert_eq!(render_one_task("\\"), render_error());
    assert_eq!(render_one_task("{tasks.0.1}\\"), render_error());
}

#[test]
fn call_tag_is_a_render_error() {
    assert!(!is_safe_template("{{ call easy_viewer with @root }}"));
    assert_eq!(render_one_task("{{ call easy_viewer with @root }}"), render_error());
    assert_eq!(render_one_task("{{- call easy_viewer with tasks }}"), render_error());
}

#[test]
fn screening_lets_ordinary_templates_through() {
    assert!(is_safe_template(""));
    assert!(is_safe_template(TEMPLATE));
    assert!(is_safe_template("Do not\nforget to call {tasks.0.1} if not busy."));
    assert_eq!(
        render_one_task("{# a note #}{{ for task in tasks }}{{ if not task.2.completed }}open{{ endif }}{{ endfor }}"),
        Ok("open".to_string())
    );
    assert_eq!(render_one_task("a\\{b"), Ok("a{b".to_string()));
    assert_eq!(render_one_task("caf\u{e9} {tasks.0.0}"), Ok("caf\u{e9} c".to_string()));
}
