//! What a handler answers: a status code and, except where the answer has no
//! body, an envelope of named fields that is sent as one JSON object.

use vstd::prelude::*;
use crate::model::{TaskModel, TaskView, task_views};

verus! {

pub const STATUS_OK: u16 = 200;

pub const STATUS_CREATED: u16 = 201;

pub const STATUS_NO_CONTENT: u16 = 204;

pub const STATUS_NOT_FOUND: u16 = 404;

pub const STATUS_INTERNAL_SERVER_ERROR: u16 = 500;

/// The value of one field of an envelope.
#[derive(Debug)]
pub enum Field {
    /// A JSON string.
    Text(String),
    /// A JSON number that counts rows.
    Count(usize),
    /// One task, as a JSON object.
    Task(TaskModel),
    /// A JSON array of tasks, in this order.
    Tasks(Vec<TaskModel>),
}

/// One field of an envelope under its name.
#[derive(Debug)]
pub struct Entry {
    pub key: String,
    pub value: Field,
}

/// An answer to one request. `body` is `None` where nothing is sent after the
/// headers; otherwise it lists the fields of the JSON object in order.
#[derive(Debug)]
pub struct Response {
    pub status: u16,
    pub body: Option<Vec<Entry>>,
}

/// A field's value, as mathematical values.
pub enum FieldView {
    Text(Seq<char>),
    Count(usize),
    Task(TaskView),
    Tasks(Seq<TaskView>),
}

/// A field's name and value, as mathematical values.
pub struct EntryView {
    pub key: Seq<char>,
    pub value: FieldView,
}

/// An answer, as mathematical values.
pub struct ResponseView {
    pub status: u16,
    pub body: Option<Seq<EntryView>>,
}

impl View for Field {
    type V = FieldView;

    open spec fn view(&self) -> FieldView {
        match *self {
            Field::Text(s) => FieldView::Text(s@),
            Field::Count(n) => FieldView::Count(n),
            Field::Task(t) => FieldView::Task(t@),
            Field::Tasks(ts) => FieldView::Tasks(task_views(ts@)),
        }
    }
}

impl View for Entry {
    type V = EntryView;

    open spec fn view(&self) -> EntryView {
        EntryView { key: self.key@, value: self.value@ }
    }
}

impl View for Response {
    type V = ResponseView;

    open spec fn view(&self) -> ResponseView {
        ResponseView {
            status: self.status,
            body: match self.body {
                Some(entries) => Some(entries@.map_values(|e: Entry| e@)),
                None => None,
            },
        }
    }
}

/// The field `"status"` with the given text.
pub open spec fn status_entry(status: Seq<char>) -> EntryView {
    EntryView { key: "status"@, value: FieldView::Text(status) }
}

/// The envelope `{status, message}`.
pub open spec fn message_envelope(status: Seq<char>, message: Seq<char>) -> Seq<EntryView> {
    seq![
        status_entry(status),
        EntryView { key: "message"@, value: FieldView::Text(message) },
    ]
}

/// The envelope `{status: "success", <key>: task}`.
pub open spec fn task_envelope(key: Seq<char>, task: TaskView) -> Seq<EntryView> {
    seq![status_entry("success"@), EntryView { key, value: FieldView::Task(task) }]
}

/// The envelope `{status: "success", result: <number of tasks>, tasks}`.
pub open spec fn list_envelope(count: usize, tasks: Seq<TaskView>) -> Seq<EntryView> {
    seq![
        status_entry("success"@),
        EntryView { key: "result"@, value: FieldView::Count(count) },
        EntryView { key: "tasks"@, value: FieldView::Tasks(tasks) },
    ]
}

/// An answer with the given status whose body is `{status: "error", message}`.
pub open spec fn error_view(status: u16, message: Seq<char>) -> ResponseView {
    ResponseView { status, body: Some(message_envelope("error"@, message)) }
}

impl ResponseView {
    /// The text of the envelope's `"status"` field, which every envelope
    /// starts with.
    pub open spec fn envelope_status(self) -> Option<Seq<char>> {
        match self.body {
            Some(entries) => if entries.len() > 0 && entries[0].key == "status"@ {
                match entries[0].value {
                    FieldView::Text(s) => Some(s),
                    _ => None,
                }
            } else {
                None
            },
            None => None,
        }
    }
}

impl Response {
    /// An answer without a body.
    pub fn empty(status: u16) -> (res: Response)
        ensures
            res@ == (ResponseView { status, body: None }),
    {
        Response { status, body: None }
    }

    /// An answer whose body is `{status, message}`.
    pub fn message(code: u16, status: &str, message: &str) -> (res: Response)
        ensures
            res@ == (ResponseView {
                status: code,
                body: Some(message_envelope(status@, message@)),
            }),
    {
        let mut entries: Vec<Entry> = Vec::new();
        entries.push(Entry { key: "status".to_owned(), value: Field::Text(status.to_owned()) });
        entries.push(Entry { key: "message".to_owned(), value: Field::Text(message.to_owned()) });
        proof {
            assert(entries@.map_values(|e: Entry| e@) =~= message_envelope(status@, message@));
        }
        Response { status: code, body: Some(entries) }
    }

    /// An answer whose body is `{status: "error", message}`.
    pub fn error(code: u16, message: &str) -> (res: Response)
        ensures
            res@ == error_view(code, message@),
    {
        Response::message(code, "error", message)
    }

    /// An answer whose body is `{status: "success", <key>: task}`.
    pub fn with_task(code: u16, key: &str, task: TaskModel) -> (res: Response)
        ensures
            res@ == (ResponseView { status: code, body: Some(task_envelope(key@, task@)) }),
    {
        let mut entries: Vec<Entry> = Vec::new();
        entries.push(Entry { key: "status".to_owned(), value: Field::Text("success".to_owned()) });
        entries.push(Entry { key: key.to_owned(), value: Field::Task(task) });
        proof {
            assert(entries@.map_values(|e: Entry| e@) =~= task_envelope(key@, task@));
        }
        Response { status: code, body: Some(entries) }
    }

    /// An answer whose body is
    /// `{status: "success", result: <number of tasks>, tasks}`.
    pub fn with_tasks(code: u16, tasks: Vec<TaskModel>) -> (res: Response)
        ensures
            res@ == (ResponseView {
                status: code,
                body: Some(list_envelope(tasks.len(), task_views(tasks@))),
            }),
    {
        let count: usize = tasks.len();
        let ghost rows = task_views(tasks@);
        let mut entries: Vec<Entry> = Vec::new();
        entries.push(Entry { key: "status".to_owned(), value: Field::Text("success".to_owned()) });
        entries.push(Entry { key: "result".to_owned(), value: Field::Count(count) });
        entries.push(Entry { key: "tasks".to_owned(), value: Field::Tasks(tasks) });
        proof {
            assert(entries@.map_values(|e: Entry| e@) =~= list_envelope(count, rows));
        }
        Response { status: code, body: Some(entries) }
    }
}

} // verus!
