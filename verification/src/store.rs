//! The statements that the handlers send to the store, and what the store
//! can answer. The store runs them; nothing here touches it.

use vstd::prelude::*;
use crate::model::{TaskModel, TaskView, task_views};

verus! {

pub const SQL_INSERT: &'static str =
    "INSERT INTO tasks (title, content) VALUES ($1, $2) RETURNING *";

pub const SQL_SELECT_PAGE: &'static str = "SELECT * FROM tasks ORDER BY id LIMIT $1 OFFSET $2";

pub const SQL_SELECT_BY_ID: &'static str = "SELECT * FROM tasks WHERE id = $1";

pub const SQL_UPDATE: &'static str =
    "UPDATE tasks SET title = $1, content = $2 WHERE id = $3 RETURNING *";

pub const SQL_DELETE: &'static str = "DELETE FROM tasks WHERE id = $1";

/// One parameterised statement against the task table, with the values of
/// its parameters in the order of their placeholders.
#[derive(Debug)]
pub enum Statement {
    /// Adds a row with this title and content and returns it.
    Insert { title: String, content: String },
    /// Returns at most `limit` rows in ascending order of `id`, after
    /// skipping the first `offset`.
    SelectPage { limit: u32, offset: u64 },
    /// Returns the row with this `id`.
    SelectById { id: u128 },
    /// Sets title and content of the row with this `id` and returns it.
    Update { title: String, content: String, id: u128 },
    /// Removes the row with this `id` and reports how many rows went.
    Delete { id: u128 },
}

/// A statement, as mathematical values.
pub enum StatementView {
    Insert { title: Seq<char>, content: Seq<char> },
    SelectPage { limit: u32, offset: u64 },
    SelectById { id: u128 },
    Update { title: Seq<char>, content: Seq<char>, id: u128 },
    Delete { id: u128 },
}

impl View for Statement {
    type V = StatementView;

    open spec fn view(&self) -> StatementView {
        match *self {
            Statement::Insert { title, content } => StatementView::Insert {
                title: title@,
                content: content@,
            },
            Statement::SelectPage { limit, offset } => StatementView::SelectPage { limit, offset },
            Statement::SelectById { id } => StatementView::SelectById { id },
            Statement::Update { title, content, id } => StatementView::Update {
                title: title@,
                content: content@,
                id,
            },
            Statement::Delete { id } => StatementView::Delete { id },
        }
    }
}

impl StatementView {
    /// The SQL text of the statement.
    pub open spec fn sql(self) -> Seq<char> {
        match self {
            StatementView::Insert { .. } => SQL_INSERT@,
            StatementView::SelectPage { .. } => SQL_SELECT_PAGE@,
            StatementView::SelectById { .. } => SQL_SELECT_BY_ID@,
            StatementView::Update { .. } => SQL_UPDATE@,
            StatementView::Delete { .. } => SQL_DELETE@,
        }
    }
}

impl Statement {
    /// The SQL text of the statement, with `$1`, `$2`, ... where the values
    /// go.
    pub fn sql(&self) -> (text: &'static str)
        ensures
            text@ == self@.sql(),
    {
        match self {
            Statement::Insert { .. } => SQL_INSERT,
            Statement::SelectPage { .. } => SQL_SELECT_PAGE,
            Statement::SelectById { .. } => SQL_SELECT_BY_ID,
            Statement::Update { .. } => SQL_UPDATE,
            Statement::Delete { .. } => SQL_DELETE,
        }
    }
}

/// Why the store gave no result.
#[derive(Clone, Copy, Debug, PartialEq, Eq, Structural)]
pub enum StoreError {
    /// The statement was to return a row and matched none.
    RowNotFound,
    /// Anything else: no connection, a violated constraint, a timeout.
    Failure,
}

/// What the store answers to a statement that returns one row.
pub open spec fn row_outcome(outcome: Result<TaskModel, StoreError>) -> Result<
    TaskView,
    StoreError,
> {
    match outcome {
        Ok(task) => Ok(task@),
        Err(e) => Err(e),
    }
}

/// What the store answers to a statement that returns rows.
pub open spec fn rows_outcome(outcome: Result<Vec<TaskModel>, StoreError>) -> Result<
    Seq<TaskView>,
    StoreError,
> {
    match outcome {
        Ok(tasks) => Ok(task_views(tasks@)),
        Err(e) => Err(e),
    }
}

} // verus!
