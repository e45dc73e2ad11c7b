//! A viewer that fills a text template with the model's rows.

use vstd::prelude::*;
use crate::store::{resolve, Row};
use crate::task_model::{entries_view, TaskModel};
use crate::task_viewer::TaskViewer;
use crate::{ListId, Task, TaskId};

verus! {

/// The error of the template engine.
#[verifier::external_type_specification]
#[verifier::external_body]
pub struct ExTemplateError(tinytemplate::error::Error);

/// What the template engine makes of a template text and rows: the
/// document, or `None` where it reports an error.
pub uninterp spec fn rendered_template(template: Seq<char>, rows: Seq<Row>) -> Option<Seq<char>>;

/// The text of the error returned where the template engine reports one.
pub open spec fn render_failed_message() -> Seq<char> {
    "Failed to render"@
}

/// The mathematical value of resolved rows.
pub open spec fn rows_view(rows: Seq<(ListId, TaskId, Task)>) -> Seq<Row> {
    Seq::new(rows.len(), |i: int| (rows[i].0@, rows[i].1, rows[i].2@))
}

/// A character that the engine may take for white space: everything but
/// the visible ASCII characters.
pub open spec fn is_blank(c: char) -> bool {
    c as u32 <= 0x20 || c as u32 >= 0x7f
}

/// A character that the engine may strip from the end of a tag.
pub open spec fn is_filler(c: char) -> bool {
    is_blank(c) || c == '-'
}

/// The first place at or after `from` that holds no blank.
pub open spec fn after_blanks(text: Seq<char>, from: int) -> int
    decreases text.len() - from,
{
    if 0 <= from < text.len() && is_blank(text[from]) {
        after_blanks(text, from + 1)
    } else {
        from
    }
}

/// The first place at or after `from` that holds no filler.
pub open spec fn after_fillers(text: Seq<char>, from: int) -> int
    decreases text.len() - from,
{
    if 0 <= from < text.len() && is_filler(text[from]) {
        after_fillers(text, from + 1)
    } else {
        from
    }
}

/// A comment tag with nothing between its marks, `{#}`, starts at `at`.
pub open spec fn empty_comment_at(text: Seq<char>, at: int) -> bool {
    at + 2 < text.len() && text[at] == '{' && text[at + 1] == '#' && text[at + 2] == '}'
}

/// The words `if` and `not` start at `at`, with blanks between them, and
/// `not` is followed by a character outside ASCII, or by nothing but
/// fillers up to a closing brace.
pub open spec fn bare_negation_at(text: Seq<char>, at: int) -> bool {
    let word = after_blanks(text, at + 2);
    let close = after_fillers(text, word + 3);
    &&& at + 2 < text.len() && text[at] == 'i' && text[at + 1] == 'f'
    &&& at + 2 < word && word + 3 <= text.len()
    &&& text[word] == 'n' && text[word + 1] == 'o' && text[word + 2] == 't'
    &&& (word + 3 < text.len() && text[word + 3] as u32 >= 0x80) || (close < text.len()
        && text[close] == '}')
}

/// A block tag opens at `at` and its first word starts with `call`.
pub open spec fn call_tag_at(text: Seq<char>, at: int) -> bool {
    let word = after_fillers(text, at + 2);
    &&& at + 1 < text.len() && text[at] == '{' && text[at + 1] == '{'
    &&& word + 4 <= text.len()
    &&& text[word] == 'c' && text[word + 1] == 'a' && text[word + 2] == 'l' && text[word + 3]
        == 'l'
}

/// One of the shapes that the viewer does not hand to the engine starts
/// at `at`.
pub open spec fn trap_at(text: Seq<char>, at: int) -> bool {
    empty_comment_at(text, at) || bare_negation_at(text, at) || call_tag_at(text, at)
}

/// The templates that the viewer hands to the engine. Left out are those
/// on which the engine's compiler stops the program in place of reporting
/// an error (a comment tag `{#}`, an `if not` with no path or with a
/// character outside ASCII right after `not`, a text that ends in a
/// backslash) and those with a `call` tag, which could make the one
/// registered template call itself without end. The shapes are looked for
/// anywhere in the text, so a few templates that the engine would take are
/// left out too.
pub open spec fn template_is_safe(text: Seq<char>) -> bool {
    &&& text.len() == 0 || text.last() != '\\'
    &&& forall|at: int| 0 <= at < text.len() ==> !trap_at(text, at)
}

/// Whether `c` is a blank.
fn blank(c: char) -> (result: bool)
    ensures
        result == is_blank(c),
{
    let code: u32 = c as u32;
    code <= 0x20 || code >= 0x7f
}

/// The first place at or after `from` that holds no blank.
fn skip_blanks(text: &str, len: usize, from: usize) -> (to: usize)
    requires
        len == text@.len(),
        from <= len,
    ensures
        to == after_blanks(text@, from as int),
        from <= to <= len,
    decreases len - from,
{
    if from < len && blank(text.get_char(from)) {
        skip_blanks(text, len, from + 1)
    } else {
        from
    }
}

/// The first place at or after `from` that holds no filler.
fn skip_fillers(text: &str, len: usize, from: usize) -> (to: usize)
    requires
        len == text@.len(),
        from <= len,
    ensures
        to == after_fillers(text@, from as int),
        from <= to <= len,
    decreases len - from,
{
    if from < len {
        let c = text.get_char(from);
        if blank(c) || c == '-' {
            return skip_fillers(text, len, from + 1);
        }
    }
    from
}

/// Whether the three characters start at `at`.
fn holds_three(text: &str, len: usize, at: usize, a: char, b: char, c: char) -> (result: bool)
    requires
        len == text@.len(),
        at <= len,
    ensures
        result == (at + 2 < len && text@[at as int] == a && text@[at + 1] == b && text@[at + 2]
            == c),
{
    len - at >= 3 && text.get_char(at) == a && text.get_char(at + 1) == b && text.get_char(at + 2)
        == c
}

/// Whether the two characters start at `at`.
fn holds_two(text: &str, len: usize, at: usize, a: char, b: char) -> (result: bool)
    requires
        len == text@.len(),
        at <= len,
    ensures
        result == (at + 1 < len && text@[at as int] == a && text@[at + 1] == b),
{
    len - at >= 2 && text.get_char(at) == a && text.get_char(at + 1) == b
}

/// Whether one of the left-out shapes starts at `at`.
fn is_trap(text: &str, len: usize, at: usize) -> (result: bool)
    requires
        len == text@.len(),
        at < len,
    ensures
        result == trap_at(text@, at as int),
{
    if holds_three(text, len, at, '{', '#', '}') {
        return true;
    }
    if len - at >= 3 && holds_two(text, len, at, 'i', 'f') {
        let word = skip_blanks(text, len, at + 2);
        if word > at + 2 && holds_three(text, len, word, 'n', 'o', 't') {
            if word + 3 < len && text.get_char(word + 3) as u32 >= 0x80 {
                return true;
            }
            let close = skip_fillers(text, len, word + 3);
            if close < len && text.get_char(close) == '}' {
                return true;
            }
        }
    }
    if holds_two(text, len, at, '{', '{') {
        let word = skip_fillers(text, len, at + 2);
        if len - word >= 4 && holds_three(text, len, word, 'c', 'a', 'l') && text.get_char(
            word + 3,
        ) == 'l' {
            return true;
        }
    }
    false
}

/// Whether the viewer hands this template to the engine.
pub fn is_safe_template(template: &str) -> (safe: bool)
    ensures
        safe == template_is_safe(template@),
{
    let len = template.unicode_len();
    if len > 0 && template.get_char(len - 1) == '\\' {
        return false;
    }
    let mut at: usize = 0;
    while at < len
        invariant
            len == template@.len(),
            at <= len,
            forall|earlier: int| 0 <= earlier < at ==> !trap_at(template@, earlier),
        decreases len - at,
    {
        if is_trap(template, len, at) {
            return false;
        }
        at += 1;
    }
    true
}

/// A viewer over one template text, screened once when the viewer is made.
pub struct SimpleViewer {
    data: String,
    safe: bool,
}

impl View for SimpleViewer {
    type V = Seq<char>;

    /// The template text.
    closed spec fn view(&self) -> Seq<char> {
        self.data@
    }
}

/// Calls `tinytemplate::TinyTemplate::new`, `add_template` and `render`:
/// compiles `template` and renders it with the context
/// `{ tasks: [[list, id, { name, statement, completed }], ..] }`.
/// The contract claims that the outcome depends on the template text and the
/// rows alone, and gives it the name `rendered_template`; an error of the
/// engine, on compiling or on rendering, is handed back as it is. Only
/// screened templates are admitted: on others the engine may not return.
#[verifier::external_body]
fn render_template(template: &str, rows: &Vec<(ListId, TaskId, Task)>) -> (outcome: Result<
    String,
    tinytemplate::error::Error,
>)
    requires
        template_is_safe(template@),
    ensures
        match outcome {
            Ok(html) => rendered_template(template@, rows_view(rows@)) == Some(html@),
            Err(_) => rendered_template(template@, rows_view(rows@)) is None,
        },
{
    let mut engine = tinytemplate::TinyTemplate::new();
    engine.add_template("easy_viewer", template)?;
    let tasks: Vec<_> = rows.iter().map(|row| {
        let name = ("name", serde_json::Value::from(row.2.name.as_str()));
        let statement = ("statement", serde_json::Value::from(row.2.statement.as_str()));
        let completed = ("completed", serde_json::Value::from(row.2.completed));
        (&row.0, row.1, std::collections::BTreeMap::from([name, statement, completed]))
    }).collect();
    engine.render("easy_viewer", &std::collections::BTreeMap::from([("tasks", tasks)]))
}

impl SimpleViewer {
    /// The flag says whether the template passed the screening.
    #[verifier::type_invariant]
    spec fn screened(&self) -> bool {
        self.safe == template_is_safe(self.data@)
    }

    /// A viewer over the template text `data`.
    pub fn new(data: String) -> (viewer: Self)
        ensures
            viewer@ == data@,
    {
        let safe = is_safe_template(data.as_str());
        SimpleViewer { data, safe }
    }

    /// The rows of a model: every enumerated pair whose id has a task, with
    /// the task's three fields, in enumeration order.
    pub fn resolve_rows<T: TaskModel>(model: &T) -> (result: Result<
        Vec<(ListId, TaskId, Task)>,
        String,
    >)
        requires
            model.wf(),
        ensures
            result is Ok,
            rows_view(result->Ok_0@) == model.store().rows(),
    {
        let entries = model.get_all_tasks()?;
        let ghost tasks = model.store().tasks;
        let mut rows: Vec<(ListId, TaskId, Task)> = Vec::new();
        let mut i: usize = 0;
        while i < entries.len()
            invariant
                model.wf(),
                tasks == model.store().tasks,
                i <= entries@.len(),
                rows_view(rows@) == resolve(entries_view(entries@).take(i as int), tasks),
            decreases entries@.len() - i,
        {
            let task_id = entries[i].1;
            let ghost earlier = rows@;
            if let Ok(name) = model.get_task_name(task_id) {
                if let Ok(statement) = model.get_task_statement(task_id) {
                    if let Ok(completed) = model.get_task_completed(task_id) {
                        let list_id = entries[i].0.clone();
                        rows.push((list_id, task_id, Task { name, statement, completed }));
                        assert(rows_view(rows@) =~= rows_view(earlier).push(
                            (entries@[i as int].0@, task_id, tasks[task_id]),
                        ));
                    }
                }
            }
            proof {
                let all = entries_view(entries@);
                assert(all.take(i as int + 1).drop_last() =~= all.take(i as int));
                assert(all.take(i as int + 1).last() == (entries@[i as int].0@, task_id));
            }
            i += 1;
        }
        assert(entries_view(entries@).take(i as int) =~= entries_view(entries@));
        Ok(rows)
    }

    /// What the viewer returns for an outcome of the template engine: the
    /// document as it is, or the render error in place of the engine's.
    pub fn document_or_error(outcome: Result<String, tinytemplate::error::Error>) -> (result:
        Result<String, String>)
        ensures
            match outcome {
                Ok(html) => result == Ok::<String, String>(html),
                Err(_) => result is Err && result->Err_0@ == render_failed_message(),
            },
    {
        match outcome {
            Ok(html) => Ok(html),
            Err(_) => Err("Failed to render".to_owned()),
        }
    }
}

impl TaskViewer for SimpleViewer {
    open spec fn document(&self, rows: Seq<Row>) -> Option<Seq<char>> {
        if template_is_safe(self@) {
            rendered_template(self@, rows)
        } else {
            None
        }
    }

    fn get_all_tasks_html<T: TaskModel>(&self, model: &T) -> (result: Result<String, String>)
        ensures
            result is Err ==> result->Err_0@ == render_failed_message(),
            !template_is_safe(self@) ==> result is Err,
    {
        proof {
            use_type_invariant(self);
        }
        if !self.safe {
            return Err("Failed to render".to_owned());
        }
        let rows = Self::resolve_rows(model)?;
        Self::document_or_error(render_template(self.data.as_str(), &rows))
    }
}

} // verus!
