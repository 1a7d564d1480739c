//! What holds of the handlers together with a store that does not fail.

use vstd::prelude::*;
use crate::model::TaskView;
use crate::response::{task_envelope, ResponseView};
use crate::schema::{FilterOptions, UpdateTaskSchema, text_or};
use crate::services::{
    create_reply, delete_reply, get_reply, health_reply, list_reply, list_statement,
    not_found_reply, update_fetched_step, update_reply, StepView,
};
use crate::store::{StatementView, StoreError};
use crate::table::{
    answers, answers_keep_order, has_row, index_of, index_of_is_unique, ordered, page, Answer,
};

verus! {

/// The text of an envelope's status: `"success"` or `"error"`.
pub open spec fn status_text(success: bool) -> Seq<char> {
    if success {
        "success"@
    } else {
        "error"@
    }
}

/// A task that was created is found under the identifier that the store gave
/// it, with the title and content that it was created with.
pub proof fn created_task_is_fetched(
    before: Seq<TaskView>,
    title: Seq<char>,
    content: Seq<char>,
    created: Answer,
    between: Seq<TaskView>,
    fetched: Answer,
    after: Seq<TaskView>,
)
    requires
        ordered(before),
        answers(before, StatementView::Insert { title, content }, created, between),
        created matches Answer::Row(Ok(row)) ==> answers(
            between,
            StatementView::SelectById { id: row.id },
            fetched,
            after,
        ),
    ensures
        ({
            &&& created matches Answer::Row(Ok(row))
            &&& fetched == created
            &&& row.title == title
            &&& row.content == content
            &&& create_reply(Ok(row)) == (ResponseView {
                status: 201,
                body: Some(task_envelope("data"@, row)),
            })
            &&& get_reply(Ok(row)) == (ResponseView {
                status: 200,
                body: Some(task_envelope("task"@, row)),
            })
        }),
        after == between,
{
    let row = created->Row_0->Ok_0;
    answers_keep_order(before, StatementView::Insert { title, content }, created, between);
    let k = choose|k: int|
        {
            &&& 0 <= k <= before.len()
            &&& forall|i: int| 0 <= i < k ==> before[i].id < row.id
            &&& forall|i: int| k <= i < before.len() ==> row.id < before[i].id
            &&& #[trigger] before.insert(k, row) == between
        };
    assert(between[k] == row);
    index_of_is_unique(between, k);
}

/// A delete of an identifier that no row has answers not found and changes
/// nothing, so the same delete again answers not found again.
pub proof fn delete_of_missing_task_repeats(
    rows: Seq<TaskView>,
    id: u128,
    first: Answer,
    between: Seq<TaskView>,
    second: Answer,
    after: Seq<TaskView>,
)
    requires
        !has_row(rows, id),
        answers(rows, StatementView::Delete { id }, first, between),
        answers(between, StatementView::Delete { id }, second, after),
    ensures
        first == Answer::Affected(Ok(0)),
        second == Answer::Affected(Ok(0)),
        delete_reply(Ok(0)) == not_found_reply(),
        not_found_reply().status == 404,
        after == rows,
{
}

/// Once a task has been deleted, no row has its identifier: a second delete
/// answers not found, and so does a fetch.
pub proof fn deleted_task_is_gone(
    before: Seq<TaskView>,
    id: u128,
    deleted: Answer,
    after: Seq<TaskView>,
)
    requires
        ordered(before),
        answers(before, StatementView::Delete { id }, deleted, after),
    ensures
        !has_row(after, id),
        answers(after, StatementView::Delete { id }, Answer::Affected(Ok(0)), after),
        answers(
            after,
            StatementView::SelectById { id },
            Answer::Row(Err(StoreError::RowNotFound)),
            after,
        ),
{
    if has_row(before, id) {
        let at = index_of(before, id);
        if has_row(after, id) {
            let j = index_of(after, id);
            let bj = if j < at { j } else { j + 1 };
            assert(before[bj].id == id);
            index_of_is_unique(before, bj);
        }
    }
}

/// The offset of well-formed options is the product that they ask for and
/// fits in 64 bits.
pub proof fn offset_is_in_range(opts: FilterOptions)
    requires
        opts.well_formed(),
    ensures
        0 <= opts.spec_offset() <= u64::MAX,
        list_statement(opts) == (StatementView::SelectPage {
            limit: opts.spec_limit() as u32,
            offset: ((opts.spec_page() - 1) * opts.spec_limit()) as u64,
        }),
{
    let page = opts.spec_page();
    let limit = opts.spec_limit();
    assert(0 <= (page - 1) * limit <= u64::MAX) by (nonlinear_arith)
        requires
            1 <= page < 0x1_0000_0000,
            1 <= limit < 0x1_0000_0000,
    ;
}

/// A page holds the rows that stand at `offset`, `offset + 1`, ... of the
/// table, in the table's order: `limit` of them where that many are left,
/// else those that are left.
pub proof fn page_holds_the_rows_asked_for(
    rows: Seq<TaskView>,
    opts: FilterOptions,
    listed: Answer,
    after: Seq<TaskView>,
)
    requires
        ordered(rows),
        opts.well_formed(),
        answers(rows, list_statement(opts), listed, after),
    ensures
        ({
            &&& listed matches Answer::Rows(Ok(shown))
            &&& shown == page(rows, opts.spec_limit(), opts.spec_offset())
            &&& shown.len() == (if rows.len() <= opts.spec_offset() {
                0
            } else if rows.len() - opts.spec_offset() < opts.spec_limit() {
                rows.len() - opts.spec_offset()
            } else {
                opts.spec_limit()
            })
            &&& ordered(shown)
            &&& forall|k: int| 0 <= k < shown.len() ==> shown[k] == rows[opts.spec_offset() + k]
            &&& list_reply(Ok(shown)).status == 200
        }),
        after == rows,
{
    offset_is_in_range(opts);
}

/// Options that are absent stand for page 1 and 10 rows: the listing is the
/// one that the same options give with the defaults written out.
pub proof fn absent_options_are_the_defaults(opts: FilterOptions)
    ensures
        (FilterOptions { page: None, limit: None }).filled() == (FilterOptions {
            page: Some(1),
            limit: Some(10),
        }),
        opts.filled().well_formed() == opts.well_formed(),
        list_statement(opts.filled()) == list_statement(opts),
        opts.page is Some && opts.limit is Some ==> opts.filled() == opts,
{
}

/// An update writes the supplied fields and leaves the others as they were
/// read: the task that comes back has the body's title where the body has
/// one, else the title that the row had, and its content likewise.
pub proof fn update_changes_supplied_fields_only(
    before: Seq<TaskView>,
    id: u128,
    body: UpdateTaskSchema,
    fetched: Answer,
    between: Seq<TaskView>,
    written: Answer,
    after: Seq<TaskView>,
)
    requires
        ordered(before),
        has_row(before, id),
        answers(before, StatementView::SelectById { id }, fetched, between),
        fetched matches Answer::Row(outcome) ==> (update_fetched_step(id, body, outcome)
            matches StepView::Run(statement) ==> answers(between, statement, written, after)),
    ensures
        ({
            &&& fetched matches Answer::Row(Ok(current))
            &&& current == before[index_of(before, id)]
            &&& written matches Answer::Row(Ok(task))
            &&& task.id == id
            &&& task.title == text_or(body.title, current.title)
            &&& task.content == text_or(body.content, current.content)
            &&& update_reply(Ok(task)) == (ResponseView {
                status: 200,
                body: Some(task_envelope("task"@, task)),
            })
            &&& after == before.update(index_of(before, id), task)
        }),
{
}

/// A fetch, an update and a delete of an identifier that no row has each
/// answer 404 with an envelope whose status is `"error"`.
pub proof fn missing_task_is_not_found(
    rows: Seq<TaskView>,
    id: u128,
    body: UpdateTaskSchema,
    fetched: Answer,
    deleted: Answer,
)
    requires
        !has_row(rows, id),
        answers(rows, StatementView::SelectById { id }, fetched, rows),
        answers(rows, StatementView::Delete { id }, deleted, rows),
    ensures
        ({
            &&& fetched matches Answer::Row(outcome)
            &&& get_reply(outcome) == not_found_reply()
            &&& update_fetched_step(id, body, outcome) == StepView::Reply(not_found_reply())
        }),
        ({
            &&& deleted matches Answer::Affected(outcome)
            &&& delete_reply(outcome) == not_found_reply()
        }),
        not_found_reply().status == 404,
        not_found_reply().envelope_status() == Some("error"@),
{
}

/// Every answer but that of a delete that removed a row carries an envelope
/// that starts with its status: `"success"` where the store gave a result,
/// `"error"` where it did not. Only the delete answers without a body.
pub proof fn every_reply_says_how_it_went(
    row: Result<TaskView, StoreError>,
    rows: Result<Seq<TaskView>, StoreError>,
    affected: Result<u64, StoreError>,
)
    ensures
        health_reply().envelope_status() == Some("success"@),
        create_reply(row).envelope_status() == Some(status_text(row is Ok)),
        get_reply(row).envelope_status() == Some(status_text(row is Ok)),
        update_reply(row).envelope_status() == Some(status_text(row is Ok)),
        list_reply(rows).envelope_status() == Some(status_text(rows is Ok)),
        affected matches Ok(n) && n > 0 ==> delete_reply(affected).body is None,
        !(affected matches Ok(n) && n > 0) ==> delete_reply(affected).envelope_status() == Some(
            "error"@,
        ),
{
}

} // verus!
