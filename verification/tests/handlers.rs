use task_service::model::TaskModel;
use task_service::response::{Entry, Field, Response};
use task_service::routes::{Handler, Method, Route, Scope, ServiceConfig};
use task_service::schema::{
    supplied_or_current, CreateTaskSchema, FilterOptions, UpdateTaskSchema, DEFAULT_LIMIT,
    DEFAULT_PAGE,
};
use task_service::services::{
    config, create_task, create_task_reply, delete_task_by_id, delete_task_by_id_reply,
    get_all_tasks, get_all_tasks_reply, get_task_by_id, get_task_by_id_reply, health_checker,
    update_task_by_id, update_task_by_id_fetched, update_task_by_id_reply, Step,
};
use task_service::store::{Statement, StoreError};

fn task(id: u128, title: &str, content: &str) -> TaskModel {
    TaskModel {
        id,
        title: title.to_string(),
        content: content.to_string(),
        created_at: Some(1_700_000_000_000_000),
        updated_at: Some(1_700_000_000_000_000),
    }
}

fn entries(response: &Response) -> &Vec<Entry> {
    match &response.body {
        Some(entries) => entries,
        None => panic!("the response has no body"),
    }
}

fn text_of(entry: &Entry) -> &str {
    match &entry.value {
        Field::Text(text) => text,
        _ => panic!("the field {} is no text", entry.key),
    }
}

fn task_of(entry: &Entry) -> &TaskModel {
    match &entry.value {
        Field::Task(task) => task,
        _ => panic!("the field {} is no task", entry.key),
    }
}

fn assert_error(response: &Response, status: u16, message: &str) {
    assert_eq!(response.status, status);
    let body = entries(response);
    assert_eq!(body.len(), 2);
    assert_eq!(body[0].key, "status");
    assert_eq!(text_of(&body[0]), "error");
    assert_eq!(body[1].key, "message");
    assert_eq!(text_of(&body[1]), message);
}

fn assert_task(response: &Response, status: u16, key: &str, expected: &TaskModel) {
    assert_eq!(response.status, status);
    let body = entries(response);
    assert_eq!(body.len(), 2);
    assert_eq!(body[0].key, "status");
    assert_eq!(text_of(&body[0]), "success");
    assert_eq!(body[1].key, key);
    let got = task_of(&body[1]);
    assert_eq!(got.id, expected.id);
    assert_eq!(got.title, expected.title);
    assert_eq!(got.content, expected.content);
    assert_eq!(got.created_at, expected.created_at);
    assert_eq!(got.updated_at, expected.updated_at);
}

#[test]
fn health_check_is_a_success_with_its_message() {
    let response = health_checker();
    assert_eq!(response.status, 200);
    let body = entries(&response);
    assert_eq!(body.len(), 2);
    assert_eq!(body[0].key, "status");
    assert_eq!(text_of(&body[0]), "success");
    assert_eq!(body[1].key, "message");
    assert_eq!(text_of(&body[1]), "Health check: API is up and running smoothly.");
}

#[test]
fn create_inserts_title_and_content() {
    let body = CreateTaskSchema { title: "t".to_string(), content: "c".to_string() };
    match create_task(&body) {
        Statement::Insert { title, content } => {
            assert_eq!(title, "t");
            assert_eq!(content, "c");
        }
        other => panic!("unexpected statement {:?}", other),
    }
}

#[test]
fn create_accepts_empty_strings() {
    let body = CreateTaskSchema { title: String::new(), content: String::new() };
    match create_task(&body) {
        Statement::Insert { title, content } => {
            assert_eq!(title, "");
            assert_eq!(content, "");
        }
        other => panic!("unexpected statement {:?}", other),
    }
}

#[test]
fn create_answers_201_with_the_row() {
    let row = task(7, "t", "c");
    let response = create_task_reply(Ok(row.clone()));
    assert_task(&response, 201, "data", &row);
}

#[test]
fn create_answers_500_on_any_store_error() {
    assert_error(&create_task_reply(Err(StoreError::Failure)), 500, "Failed to create task");
    assert_error(&create_task_reply(Err(StoreError::RowNotFound)), 500, "Failed to create task");
}

#[test]
fn listing_computes_limit_and_offset() {
    let opts = FilterOptions { page: Some(3), limit: Some(2) };
    match get_all_tasks(&opts) {
        Statement::SelectPage { limit, offset } => {
            assert_eq!(limit, 2);
            assert_eq!(offset, 4);
        }
        other => panic!("unexpected statement {:?}", other),
    }
    assert_eq!(opts.page(), 3);
    assert_eq!(opts.limit(), 2);
    assert_eq!(opts.offset(), 4);
}

#[test]
fn listing_without_options_is_page_one_of_ten() {
    let absent = FilterOptions { page: None, limit: None };
    let written = FilterOptions { page: Some(1), limit: Some(10) };
    assert_eq!(DEFAULT_PAGE, 1);
    assert_eq!(DEFAULT_LIMIT, 10);
    for opts in [absent, written] {
        match get_all_tasks(&opts) {
            Statement::SelectPage { limit, offset } => {
                assert_eq!(limit, 10);
                assert_eq!(offset, 0);
            }
            other => panic!("unexpected statement {:?}", other),
        }
    }
}

#[test]
fn listing_fills_in_one_absent_option() {
    match get_all_tasks(&FilterOptions { page: Some(4), limit: None }) {
        Statement::SelectPage { limit, offset } => {
            assert_eq!(limit, 10);
            assert_eq!(offset, 30);
        }
        other => panic!("unexpected statement {:?}", other),
    }
    match get_all_tasks(&FilterOptions { page: None, limit: Some(25) }) {
        Statement::SelectPage { limit, offset } => {
            assert_eq!(limit, 25);
            assert_eq!(offset, 0);
        }
        other => panic!("unexpected statement {:?}", other),
    }
}

#[test]
fn listing_takes_the_largest_options() {
    let opts = FilterOptions { page: Some(u32::MAX), limit: Some(u32::MAX) };
    assert!(opts.is_well_formed());
    assert_eq!(opts.offset(), 4_294_967_294 * 4_294_967_295);
}

#[test]
fn options_with_a_zero_are_not_well_formed() {
    assert!(!FilterOptions { page: Some(0), limit: None }.is_well_formed());
    assert!(!FilterOptions { page: None, limit: Some(0) }.is_well_formed());
    assert!(FilterOptions { page: None, limit: None }.is_well_formed());
    assert!(FilterOptions { page: Some(1), limit: Some(1) }.is_well_formed());
}

#[test]
fn listing_answers_200_with_count_and_rows() {
    let rows = vec![task(1, "a", "x"), task(2, "b", "y")];
    let response = get_all_tasks_reply(Ok(rows));
    assert_eq!(response.status, 200);
    let body = entries(&response);
    assert_eq!(body.len(), 3);
    assert_eq!(body[0].key, "status");
    assert_eq!(text_of(&body[0]), "success");
    assert_eq!(body[1].key, "result");
    assert!(matches!(body[1].value, Field::Count(2)));
    assert_eq!(body[2].key, "tasks");
    match &body[2].value {
        Field::Tasks(tasks) => {
            assert_eq!(tasks.len(), 2);
            assert_eq!(tasks[0].id, 1);
            assert_eq!(tasks[0].title, "a");
            assert_eq!(tasks[1].id, 2);
            assert_eq!(tasks[1].content, "y");
        }
        other => panic!("unexpected field {:?}", other),
    }
}

#[test]
fn listing_of_no_rows_is_a_success() {
    let response = get_all_tasks_reply(Ok(Vec::new()));
    assert_eq!(response.status, 200);
    let body = entries(&response);
    assert_eq!(text_of(&body[0]), "success");
    assert!(matches!(body[1].value, Field::Count(0)));
    assert!(matches!(&body[2].value, Field::Tasks(tasks) if tasks.is_empty()));
}

#[test]
fn listing_answers_500_on_any_store_error() {
    assert_error(&get_all_tasks_reply(Err(StoreError::Failure)), 500, "Failed to fetch tasks");
    assert_error(&get_all_tasks_reply(Err(StoreError::RowNotFound)), 500, "Failed to fetch tasks");
}

#[test]
fn fetch_selects_by_id() {
    assert!(matches!(get_task_by_id(42), Statement::SelectById { id: 42 }));
}

#[test]
fn fetch_answers_200_with_the_row() {
    let row = task(42, "title", "content");
    assert_task(&get_task_by_id_reply(Ok(row.clone())), 200, "task", &row);
}

#[test]
fn fetch_answers_404_where_no_row_matches() {
    assert_error(&get_task_by_id_reply(Err(StoreError::RowNotFound)), 404, "Task not found");
}

#[test]
fn fetch_answers_500_where_the_store_fails() {
    assert_error(&get_task_by_id_reply(Err(StoreError::Failure)), 500, "Failed to fetch task");
}

#[test]
fn delete_names_the_row() {
    assert!(matches!(delete_task_by_id(9), Statement::Delete { id: 9 }));
}

#[test]
fn delete_answers_204_without_a_body() {
    let response = delete_task_by_id_reply(Ok(1));
    assert_eq!(response.status, 204);
    assert!(response.body.is_none());
    let response = delete_task_by_id_reply(Ok(u64::MAX));
    assert_eq!(response.status, 204);
    assert!(response.body.is_none());
}

#[test]
fn delete_answers_404_where_no_row_went() {
    assert_error(&delete_task_by_id_reply(Ok(0)), 404, "Task not found");
    assert_error(&delete_task_by_id_reply(Err(StoreError::RowNotFound)), 404, "Task not found");
}

#[test]
fn delete_answers_500_where_the_store_fails() {
    assert_error(&delete_task_by_id_reply(Err(StoreError::Failure)), 500, "Failed to delete task");
}

#[test]
fn update_reads_the_row_first() {
    assert!(matches!(update_task_by_id(5), Statement::SelectById { id: 5 }));
}

#[test]
fn update_with_content_only_keeps_the_title() {
    let body = UpdateTaskSchema { title: None, content: Some("Z".to_string()) };
    match update_task_by_id_fetched(5, &body, Ok(task(5, "A", "B"))) {
        Step::Run(Statement::Update { title, content, id }) => {
            assert_eq!(title, "A");
            assert_eq!(content, "Z");
            assert_eq!(id, 5);
        }
        other => panic!("unexpected step {:?}", other),
    }
}

#[test]
fn update_with_title_only_keeps_the_content() {
    let body = UpdateTaskSchema { title: Some("N".to_string()), content: None };
    match update_task_by_id_fetched(5, &body, Ok(task(5, "A", "B"))) {
        Step::Run(Statement::Update { title, content, id }) => {
            assert_eq!(title, "N");
            assert_eq!(content, "B");
            assert_eq!(id, 5);
        }
        other => panic!("unexpected step {:?}", other),
    }
}

#[test]
fn update_with_both_fields_or_none() {
    let both = UpdateTaskSchema { title: Some("N".to_string()), content: Some(String::new()) };
    match update_task_by_id_fetched(5, &both, Ok(task(5, "A", "B"))) {
        Step::Run(Statement::Update { title, content, .. }) => {
            assert_eq!(title, "N");
            assert_eq!(content, "");
        }
        other => panic!("unexpected step {:?}", other),
    }
    let none = UpdateTaskSchema { title: None, content: None };
    match update_task_by_id_fetched(5, &none, Ok(task(5, "A", "B"))) {
        Step::Run(Statement::Update { title, content, .. }) => {
            assert_eq!(title, "A");
            assert_eq!(content, "B");
        }
        other => panic!("unexpected step {:?}", other),
    }
}

#[test]
fn update_answers_404_where_the_row_is_missing() {
    let body = UpdateTaskSchema { title: Some("N".to_string()), content: None };
    match update_task_by_id_fetched(5, &body, Err(StoreError::RowNotFound)) {
        Step::Reply(response) => assert_error(&response, 404, "Task not found"),
        other => panic!("unexpected step {:?}", other),
    }
    assert_error(&update_task_by_id_reply(Err(StoreError::RowNotFound)), 404, "Task not found");
}

#[test]
fn update_answers_500_with_the_message_of_its_step() {
    let body = UpdateTaskSchema { title: None, content: None };
    match update_task_by_id_fetched(5, &body, Err(StoreError::Failure)) {
        Step::Reply(response) => assert_error(&response, 500, "Failed to fetch task"),
        other => panic!("unexpected step {:?}", other),
    }
    assert_error(&update_task_by_id_reply(Err(StoreError::Failure)), 500, "Failed to update task");
}

#[test]
fn update_answers_200_with_the_written_row() {
    let row = task(5, "A", "Z");
    assert_task(&update_task_by_id_reply(Ok(row.clone())), 200, "task", &row);
}

#[test]
fn supplied_text_wins_over_current() {
    let current = "old".to_string();
    assert_eq!(supplied_or_current(&Some("new".to_string()), &current), "new");
    assert_eq!(supplied_or_current(&None, &current), "old");
}

#[test]
fn statements_carry_their_sql() {
    assert_eq!(
        Statement::Insert { title: String::new(), content: String::new() }.sql(),
        "INSERT INTO tasks (title, content) VALUES ($1, $2) RETURNING *"
    );
    assert_eq!(
        Statement::SelectPage { limit: 1, offset: 0 }.sql(),
        "SELECT * FROM tasks ORDER BY id LIMIT $1 OFFSET $2"
    );
    assert_eq!(Statement::SelectById { id: 1 }.sql(), "SELECT * FROM tasks WHERE id = $1");
    assert_eq!(
        Statement::Update { title: String::new(), content: String::new(), id: 1 }.sql(),
        "UPDATE tasks SET title = $1, content = $2 WHERE id = $3 RETURNING *"
    );
    assert_eq!(Statement::Delete { id: 1 }.sql(), "DELETE FROM tasks WHERE id = $1");
}

#[test]
fn responses_are_built_field_by_field() {
    let empty = Response::empty(204);
    assert_eq!(empty.status, 204);
    assert!(empty.body.is_none());
    let message = Response::message(200, "success", "fine");
    assert_eq!(message.status, 200);
    assert_eq!(text_of(&entries(&message)[0]), "success");
    assert_eq!(text_of(&entries(&message)[1]), "fine");
    assert_error(&Response::error(500, "broken"), 500, "broken");
    let row = task(3, "a", "b");
    assert_task(&Response::with_task(200, "task", row.clone()), 200, "task", &row);
    let list = Response::with_tasks(200, vec![row]);
    assert!(matches!(entries(&list)[1].value, Field::Count(1)));
}

#[test]
fn config_adds_the_six_routes_under_api() {
    let mut conf = ServiceConfig::new();
    assert!(conf.scopes.is_empty());
    config(&mut conf);
    assert_eq!(conf.scopes.len(), 1);
    let scope = &conf.scopes[0];
    assert_eq!(scope.prefix, "/api");
    let expected = [
        (Method::Get, "/healthchecker", Handler::HealthChecker),
        (Method::Post, "/tasks", Handler::CreateTask),
        (Method::Get, "/tasks", Handler::GetAllTasks),
        (Method::Get, "/tasks/{id}", Handler::GetTaskById),
        (Method::Delete, "/tasks/{id}", Handler::DeleteTaskById),
        (Method::Patch, "/tasks/{id}", Handler::UpdateTaskById),
    ];
    assert_eq!(scope.routes.len(), expected.len());
    for (route, (method, path, handler)) in scope.routes.iter().zip(expected.iter()) {
        assert_eq!(route.method, *method);
        assert_eq!(route.path, *path);
        assert_eq!(route.handler, *handler);
    }
}

#[test]
fn config_keeps_the_scopes_that_are_there() {
    let mut conf = ServiceConfig::new();
    conf.service(Scope {
        prefix: "/other".to_string(),
        routes: vec![Route::new(Method::Get, "/ping", Handler::HealthChecker)],
    });
    config(&mut conf);
    assert_eq!(conf.scopes.len(), 2);
    assert_eq!(conf.scopes[0].prefix, "/other");
    assert_eq!(conf.scopes[0].routes[0].path, "/ping");
    assert_eq!(conf.scopes[1].prefix, "/api");
}
