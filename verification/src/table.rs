//! The task table as the handlers take it to be: rows in ascending order of
//! their identifiers, no identifier twice, and for each statement the answer
//! of a store that does not fail.

use vstd::prelude::*;
use crate::model::TaskView;
use crate::store::{StatementView, StoreError};

verus! {

/// What a store answers to one statement.
pub enum Answer {
    /// To a statement that returns one row.
    Row(Result<TaskView, StoreError>),
    /// To a statement that returns rows.
    Rows(Result<Seq<TaskView>, StoreError>),
    /// To a statement that reports how many rows it changed.
    Affected(Result<u64, StoreError>),
}

/// The rows stand in ascending order of `id`; so no two share one.
pub open spec fn ordered(rows: Seq<TaskView>) -> bool {
    forall|i: int, j: int| 0 <= i < j < rows.len() ==> rows[i].id < rows[j].id
}

/// Some row has this `id`.
pub open spec fn has_row(rows: Seq<TaskView>, id: u128) -> bool {
    exists|i: int| 0 <= i < rows.len() && rows[i].id == id
}

/// The place of the row with this `id`, where there is one.
pub open spec fn index_of(rows: Seq<TaskView>, id: u128) -> int {
    choose|i: int| 0 <= i < rows.len() && rows[i].id == id
}

/// At most `limit` rows after the first `offset`.
pub open spec fn page(rows: Seq<TaskView>, limit: int, offset: int) -> Seq<TaskView>
    recommends
        0 <= limit,
        0 <= offset,
{
    if offset >= rows.len() {
        Seq::empty()
    } else if offset + limit >= rows.len() {
        rows.subrange(offset, rows.len() as int)
    } else {
        rows.subrange(offset, offset + limit)
    }
}

/// `after` is `before` with `row` put where its `id` belongs.
pub open spec fn placed(before: Seq<TaskView>, row: TaskView, after: Seq<TaskView>) -> bool {
    exists|k: int|
        {
            &&& 0 <= k <= before.len()
            &&& forall|i: int| 0 <= i < k ==> before[i].id < row.id
            &&& forall|i: int| k <= i < before.len() ==> row.id < before[i].id
            &&& #[trigger] before.insert(k, row) == after
        }
}

/// The row with this `id`, or that there is none.
pub open spec fn select_by_id(rows: Seq<TaskView>, id: u128) -> Result<TaskView, StoreError> {
    if has_row(rows, id) {
        Ok(rows[index_of(rows, id)])
    } else {
        Err(StoreError::RowNotFound)
    }
}

/// A store that holds `before` and does not fail answers `statement` with
/// `answer` and then holds `after`.
///
/// An insert is answered with a row that has the given title and content
/// under an identifier of the store's choice that no row had. An update is
/// answered with the row as it now stands: its title and content as given,
/// its identifier and time of creation as before.
pub open spec fn answers(
    before: Seq<TaskView>,
    statement: StatementView,
    answer: Answer,
    after: Seq<TaskView>,
) -> bool {
    match statement {
        StatementView::Insert { title, content } => {
            &&& answer matches Answer::Row(Ok(row))
            &&& row.title == title
            &&& row.content == content
            &&& placed(before, row, after)
        },
        StatementView::SelectPage { limit, offset } => {
            &&& answer == Answer::Rows(Ok(page(before, limit as int, offset as int)))
            &&& after == before
        },
        StatementView::SelectById { id } => {
            &&& answer == Answer::Row(select_by_id(before, id))
            &&& after == before
        },
        StatementView::Update { title, content, id } => if has_row(before, id) {
            &&& answer matches Answer::Row(Ok(row))
            &&& row.id == id
            &&& row.title == title
            &&& row.content == content
            &&& row.created_at == before[index_of(before, id)].created_at
            &&& after == before.update(index_of(before, id), row)
        } else {
            &&& answer == Answer::Row(Err(StoreError::RowNotFound))
            &&& after == before
        },
        StatementView::Delete { id } => if has_row(before, id) {
            &&& answer == Answer::Affected(Ok(1))
            &&& after == before.remove(index_of(before, id))
        } else {
            &&& answer == Answer::Affected(Ok(0))
            &&& after == before
        },
    }
}

/// In an ordered table the row with a given `id` stands at one place only.
pub proof fn index_of_is_unique(rows: Seq<TaskView>, i: int)
    requires
        ordered(rows),
        0 <= i < rows.len(),
    ensures
        has_row(rows, rows[i].id),
        index_of(rows, rows[i].id) == i,
{
    let id = rows[i].id;
    let j = index_of(rows, id);
    assert(0 <= j < rows.len() && rows[j].id == id);
    if j < i {
        assert(rows[j].id < rows[i].id);
    } else if i < j {
        assert(rows[i].id < rows[j].id);
    }
}

/// No statement breaks the order of the table, so no two rows ever share an
/// identifier.
pub proof fn answers_keep_order(
    before: Seq<TaskView>,
    statement: StatementView,
    answer: Answer,
    after: Seq<TaskView>,
)
    requires
        ordered(before),
        answers(before, statement, answer, after),
    ensures
        ordered(after),
{
    match statement {
        StatementView::Insert { .. } => {
            let row = answer->Row_0->Ok_0;
            let k = choose|k: int|
                {
                    &&& 0 <= k <= before.len()
                    &&& forall|i: int| 0 <= i < k ==> before[i].id < row.id
                    &&& forall|i: int| k <= i < before.len() ==> row.id < before[i].id
                    &&& #[trigger] before.insert(k, row) == after
                };
            assert forall|i: int, j: int| 0 <= i < j < after.len() implies after[i].id
                < after[j].id by {
                let bi = if i < k { i } else { i - 1 };
                let bj = if j < k { j } else { j - 1 };
                if i != k && j != k {
                    assert(before[bi].id < before[bj].id);
                }
            }
        },
        StatementView::Update { id, .. } => {
            if has_row(before, id) {
                assert forall|i: int, j: int| 0 <= i < j < after.len() implies after[i].id
                    < after[j].id by {
                    assert(before[i].id < before[j].id);
                }
            }
        },
        StatementView::Delete { id } => {
            if has_row(before, id) {
                let at = index_of(before, id);
                assert forall|i: int, j: int| 0 <= i < j < after.len() implies after[i].id
                    < after[j].id by {
                    let bi = if i < at { i } else { i + 1 };
                    let bj = if j < at { j } else { j + 1 };
                    assert(before[bi].id < before[bj].id);
                }
            }
        },
        _ => {},
    }
}

} // verus!
