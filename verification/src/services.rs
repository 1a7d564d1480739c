//! The handlers. Each one is split where it waits for the store: one function
//! gives the statement to run, the next takes what the store answered and
//! gives the response, or, for an update, the second statement.

use vstd::prelude::*;
use crate::model::{TaskModel, TaskView};
use crate::routes::{Handler, Method, Route, RouteView, Scope, ScopeView, ServiceConfig};
use crate::response::{
    error_view, list_envelope, message_envelope, task_envelope, Response, ResponseView,
    STATUS_CREATED, STATUS_INTERNAL_SERVER_ERROR, STATUS_NOT_FOUND, STATUS_NO_CONTENT, STATUS_OK,
};
use crate::schema::{supplied_or_current, CreateTaskSchema, FilterOptions, UpdateTaskSchema};
use crate::store::{row_outcome, rows_outcome, Statement, StatementView, StoreError};

verus! {

pub const MESSAGE_HEALTH: &'static str = "Health check: API is up and running smoothly.";

pub const MESSAGE_NOT_FOUND: &'static str = "Task not found";

pub const MESSAGE_CREATE_FAILED: &'static str = "Failed to create task";

pub const MESSAGE_LIST_FAILED: &'static str = "Failed to fetch tasks";

pub const MESSAGE_FETCH_FAILED: &'static str = "Failed to fetch task";

pub const MESSAGE_DELETE_FAILED: &'static str = "Failed to delete task";

pub const MESSAGE_UPDATE_FAILED: &'static str = "Failed to update task";

/// What a handler does next: run a statement, or answer.
#[derive(Debug)]
pub enum Step {
    Run(Statement),
    Reply(Response),
}

/// A step, as mathematical values.
pub enum StepView {
    Run(StatementView),
    Reply(ResponseView),
}

impl View for Step {
    type V = StepView;

    open spec fn view(&self) -> StepView {
        match *self {
            Step::Run(statement) => StepView::Run(statement@),
            Step::Reply(response) => StepView::Reply(response@),
        }
    }
}

/// The answer of the health check.
pub open spec fn health_reply() -> ResponseView {
    ResponseView { status: STATUS_OK, body: Some(message_envelope("success"@, MESSAGE_HEALTH@)) }
}

/// The answer where the identifier matches no row.
pub open spec fn not_found_reply() -> ResponseView {
    error_view(STATUS_NOT_FOUND, MESSAGE_NOT_FOUND@)
}

/// The answer where the store failed, with the handler's own message.
pub open spec fn failure_reply(message: Seq<char>) -> ResponseView {
    error_view(STATUS_INTERNAL_SERVER_ERROR, message)
}

/// The answer to a create, by what the store answered to the insert.
pub open spec fn create_reply(outcome: Result<TaskView, StoreError>) -> ResponseView {
    match outcome {
        Ok(task) => ResponseView {
            status: STATUS_CREATED,
            body: Some(task_envelope("data"@, task)),
        },
        Err(_) => failure_reply(MESSAGE_CREATE_FAILED@),
    }
}

/// The statement of a listing with these options.
pub open spec fn list_statement(opts: FilterOptions) -> StatementView
    recommends
        opts.well_formed(),
{
    StatementView::SelectPage { limit: opts.spec_limit() as u32, offset: opts.spec_offset() as u64 }
}

/// The answer to a listing, by what the store answered to the select.
pub open spec fn list_reply(outcome: Result<Seq<TaskView>, StoreError>) -> ResponseView {
    match outcome {
        Ok(rows) => ResponseView {
            status: STATUS_OK,
            body: Some(list_envelope(rows.len() as usize, rows)),
        },
        Err(_) => failure_reply(MESSAGE_LIST_FAILED@),
    }
}

/// The answer to a fetch of one task, by what the store answered.
pub open spec fn get_reply(outcome: Result<TaskView, StoreError>) -> ResponseView {
    match outcome {
        Ok(task) => ResponseView { status: STATUS_OK, body: Some(task_envelope("task"@, task)) },
        Err(StoreError::RowNotFound) => not_found_reply(),
        Err(StoreError::Failure) => failure_reply(MESSAGE_FETCH_FAILED@),
    }
}

/// The answer to a delete, by the number of rows that the store removed.
pub open spec fn delete_reply(outcome: Result<u64, StoreError>) -> ResponseView {
    match outcome {
        Ok(rows_affected) => if rows_affected == 0 {
            not_found_reply()
        } else {
            ResponseView { status: STATUS_NO_CONTENT, body: None }
        },
        Err(StoreError::RowNotFound) => not_found_reply(),
        Err(StoreError::Failure) => failure_reply(MESSAGE_DELETE_FAILED@),
    }
}

/// What an update does once the store has answered its first statement:
/// write the row with the supplied fields over the current ones, or answer
/// that there is no such task, or that the store failed.
pub open spec fn update_fetched_step(
    id: u128,
    body: UpdateTaskSchema,
    outcome: Result<TaskView, StoreError>,
) -> StepView {
    match outcome {
        Ok(current) => StepView::Run(
            StatementView::Update {
                title: body.new_title(current.title),
                content: body.new_content(current.content),
                id,
            },
        ),
        Err(StoreError::RowNotFound) => StepView::Reply(not_found_reply()),
        Err(StoreError::Failure) => StepView::Reply(failure_reply(MESSAGE_FETCH_FAILED@)),
    }
}

/// The answer to an update, by what the store answered to the write.
pub open spec fn update_reply(outcome: Result<TaskView, StoreError>) -> ResponseView {
    match outcome {
        Ok(task) => ResponseView { status: STATUS_OK, body: Some(task_envelope("task"@, task)) },
        Err(StoreError::RowNotFound) => not_found_reply(),
        Err(StoreError::Failure) => failure_reply(MESSAGE_UPDATE_FAILED@),
    }
}

/// Answers the liveness probe. It asks nothing of the store.
pub fn health_checker() -> (res: Response)
    ensures
        res@ == health_reply(),
        res.status == 200,
{
    Response::message(STATUS_OK, "success", MESSAGE_HEALTH)
}

/// An update's first statement: the select of the row to change.
pub fn update_task_by_id(id: u128) -> (statement: Statement)
    ensures
        statement@ == (StatementView::SelectById { id }),
{
    Statement::SelectById { id }
}

/// An update's second step, taken when the store has answered the select.
/// A field that the body leaves out keeps the value that was read.
pub fn update_task_by_id_fetched(
    id: u128,
    body: &UpdateTaskSchema,
    outcome: Result<TaskModel, StoreError>,
) -> (step: Step)
    ensures
        step@ == update_fetched_step(id, *body, row_outcome(outcome)),
{
    match outcome {
        Ok(current) => {
            let title: String = supplied_or_current(&body.title, &current.title);
            let content: String = supplied_or_current(&body.content, &current.content);
            Step::Run(Statement::Update { title, content, id })
        },
        Err(StoreError::RowNotFound) => Step::Reply(
            Response::error(STATUS_NOT_FOUND, MESSAGE_NOT_FOUND),
        ),
        Err(StoreError::Failure) => Step::Reply(
            Response::error(STATUS_INTERNAL_SERVER_ERROR, MESSAGE_FETCH_FAILED),
        ),
    }
}

/// An update's answer, given when the store has answered the write.
pub fn update_task_by_id_reply(outcome: Result<TaskModel, StoreError>) -> (res: Response)
    ensures
        res@ == update_reply(row_outcome(outcome)),
{
    match outcome {
        Ok(task) => Response::with_task(STATUS_OK, "task", task),
        Err(StoreError::RowNotFound) => Response::error(STATUS_NOT_FOUND, MESSAGE_NOT_FOUND),
        Err(StoreError::Failure) => Response::error(
            STATUS_INTERNAL_SERVER_ERROR,
            MESSAGE_UPDATE_FAILED,
        ),
    }
}

/// A listing's statement: `limit` rows after the first `(page - 1) * limit`,
/// with page 1 and 10 rows where the options name none.
pub fn get_all_tasks(opts: &FilterOptions) -> (statement: Statement)
    requires
        opts.well_formed(),
    ensures
        statement@ == list_statement(*opts),
{
    let limit: u32 = opts.limit();
    let offset: u64 = opts.offset();
    Statement::SelectPage { limit, offset }
}

/// A listing's answer. No rows is a success like any other.
pub fn get_all_tasks_reply(outcome: Result<Vec<TaskModel>, StoreError>) -> (res: Response)
    ensures
        res@ == list_reply(rows_outcome(outcome)),
{
    match outcome {
        Ok(tasks) => Response::with_tasks(STATUS_OK, tasks),
        Err(_) => Response::error(STATUS_INTERNAL_SERVER_ERROR, MESSAGE_LIST_FAILED),
    }
}

/// A delete's statement.
pub fn delete_task_by_id(id: u128) -> (statement: Statement)
    ensures
        statement@ == (StatementView::Delete { id }),
{
    Statement::Delete { id }
}

/// A delete's answer: no body where a row went, not found where none did.
pub fn delete_task_by_id_reply(outcome: Result<u64, StoreError>) -> (res: Response)
    ensures
        res@ == delete_reply(outcome),
{
    match outcome {
        Ok(rows_affected) => {
            if rows_affected == 0 {
                Response::error(STATUS_NOT_FOUND, MESSAGE_NOT_FOUND)
            } else {
                Response::empty(STATUS_NO_CONTENT)
            }
        },
        Err(StoreError::RowNotFound) => Response::error(STATUS_NOT_FOUND, MESSAGE_NOT_FOUND),
        Err(StoreError::Failure) => Response::error(
            STATUS_INTERNAL_SERVER_ERROR,
            MESSAGE_DELETE_FAILED,
        ),
    }
}

/// A fetch's statement.
pub fn get_task_by_id(id: u128) -> (statement: Statement)
    ensures
        statement@ == (StatementView::SelectById { id }),
{
    Statement::SelectById { id }
}

/// A fetch's answer.
pub fn get_task_by_id_reply(outcome: Result<TaskModel, StoreError>) -> (res: Response)
    ensures
        res@ == get_reply(row_outcome(outcome)),
{
    match outcome {
        Ok(task) => Response::with_task(STATUS_OK, "task", task),
        Err(StoreError::RowNotFound) => Response::error(STATUS_NOT_FOUND, MESSAGE_NOT_FOUND),
        Err(StoreError::Failure) => Response::error(
            STATUS_INTERNAL_SERVER_ERROR,
            MESSAGE_FETCH_FAILED,
        ),
    }
}

/// A create's statement: the insert of the body's title and content.
pub fn create_task(body: &CreateTaskSchema) -> (statement: Statement)
    ensures
        statement@ == (StatementView::Insert { title: body.title@, content: body.content@ }),
{
    Statement::Insert { title: body.title.clone(), content: body.content.clone() }
}

/// A create's answer: the row as the store made it, or a failure that says
/// nothing of its cause.
pub fn create_task_reply(outcome: Result<TaskModel, StoreError>) -> (res: Response)
    ensures
        res@ == create_reply(row_outcome(outcome)),
{
    match outcome {
        Ok(task) => Response::with_task(STATUS_CREATED, "data", task),
        Err(_) => Response::error(STATUS_INTERNAL_SERVER_ERROR, MESSAGE_CREATE_FAILED),
    }
}

/// The prefix under which every route of the service stands.
pub const API_PREFIX: &'static str = "/api";

/// The routes of the service, without their prefix.
pub open spec fn api_routes() -> Seq<RouteView> {
    seq![
        RouteView { method: Method::Get, path: "/healthchecker"@, handler: Handler::HealthChecker },
        RouteView { method: Method::Post, path: "/tasks"@, handler: Handler::CreateTask },
        RouteView { method: Method::Get, path: "/tasks"@, handler: Handler::GetAllTasks },
        RouteView { method: Method::Get, path: "/tasks/{id}"@, handler: Handler::GetTaskById },
        RouteView {
            method: Method::Delete,
            path: "/tasks/{id}"@,
            handler: Handler::DeleteTaskById,
        },
        RouteView { method: Method::Patch, path: "/tasks/{id}"@, handler: Handler::UpdateTaskById },
    ]
}

/// The service's one scope.
pub open spec fn api_scope() -> ScopeView {
    ScopeView { prefix: API_PREFIX@, routes: api_routes() }
}

/// Adds the service's routes to `conf`, all under `/api`.
pub fn config(conf: &mut ServiceConfig)
    ensures
        final(conf)@ == old(conf)@.push(api_scope()),
{
    let mut routes: Vec<Route> = Vec::new();
    routes.push(Route::new(Method::Get, "/healthchecker", Handler::HealthChecker));
    routes.push(Route::new(Method::Post, "/tasks", Handler::CreateTask));
    routes.push(Route::new(Method::Get, "/tasks", Handler::GetAllTasks));
    routes.push(Route::new(Method::Get, "/tasks/{id}", Handler::GetTaskById));
    routes.push(Route::new(Method::Delete, "/tasks/{id}", Handler::DeleteTaskById));
    routes.push(Route::new(Method::Patch, "/tasks/{id}", Handler::UpdateTaskById));
    let scope = Scope { prefix: API_PREFIX.to_owned(), routes };
    proof {
        assert(scope@.routes =~= api_routes());
    }
    conf.service(scope);
}

} // verus!
