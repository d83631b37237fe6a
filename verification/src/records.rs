//! The table of records that a repository holds, as a mathematical map from
//! id to record, and what finding, updating, deleting and listing mean on it.

use vstd::prelude::*;
use crate::error::RepositoryErrorView;
use crate::model::{merged, TodoView, UpdateTodoView};

verus! {

/// Each record is stored under its own id, so no two records share one.
pub open spec fn keyed_by_id(records: Map<i32, TodoView>) -> bool {
    forall|id: i32| records.contains_key(id) ==> (#[trigger] records[id]).id == id
}

/// A table is a finite map in which each record is stored under its own id.
pub open spec fn is_table(records: Map<i32, TodoView>) -> bool {
    records.dom().finite() && keyed_by_id(records)
}

/// What looking up `id` gives.
pub open spec fn found(records: Map<i32, TodoView>, id: i32) -> Result<
    TodoView,
    RepositoryErrorView,
> {
    if records.contains_key(id) {
        Ok(records[id])
    } else {
        Err(RepositoryErrorView::NotFound(id))
    }
}

/// What updating the record `id` with `change` gives.
pub open spec fn updated(records: Map<i32, TodoView>, id: i32, change: UpdateTodoView) -> Result<
    TodoView,
    RepositoryErrorView,
> {
    if records.contains_key(id) {
        Ok(merged(records[id], change))
    } else {
        Err(RepositoryErrorView::NotFound(id))
    }
}

/// The table after updating the record `id` with `change`: the merged record
/// takes the place of the stored one, and a table without `id` stays as it is.
pub open spec fn after_update(
    records: Map<i32, TodoView>,
    id: i32,
    change: UpdateTodoView,
) -> Map<i32, TodoView> {
    if records.contains_key(id) {
        records.insert(id, merged(records[id], change))
    } else {
        records
    }
}

/// What deleting the record `id` gives.
pub open spec fn deleted(records: Map<i32, TodoView>, id: i32) -> Result<(), RepositoryErrorView> {
    if records.contains_key(id) {
        Ok(())
    } else {
        Err(RepositoryErrorView::NotFound(id))
    }
}

/// The table after deleting the record `id`.
pub open spec fn after_delete(records: Map<i32, TodoView>, id: i32) -> Map<i32, TodoView> {
    records.remove(id)
}

/// `items` holds every record of the table exactly once, in some order.
pub open spec fn lists(records: Map<i32, TodoView>, items: Seq<TodoView>) -> bool {
    &&& items.len() == records.len()
    &&& forall|i: int|
        0 <= i < items.len() ==> records.contains_key(#[trigger] items[i].id) && records[items[i].id]
            == items[i]
    &&& forall|i: int, j: int|
        0 <= i < j < items.len() ==> (#[trigger] items[i]).id != (#[trigger] items[j]).id
    &&& forall|id: i32| #[trigger]
        records.contains_key(id) ==> exists|i: int|
            0 <= i < items.len() && #[trigger] items[i] == records[id]
}

/// A record that is stored under its own id is what looking up that id gives.
pub proof fn lemma_stored_record_is_found(records: Map<i32, TodoView>, todo: TodoView)
    ensures
        found(records.insert(todo.id, todo), todo.id) == Ok::<TodoView, RepositoryErrorView>(todo),
{
}

/// Storing a record under its own id, updating and deleting each turn a table
/// into a table: afterwards, too, no two records share an id.
pub proof fn lemma_operations_keep_a_table(
    records: Map<i32, TodoView>,
    todo: TodoView,
    id: i32,
    change: UpdateTodoView,
)
    requires
        is_table(records),
    ensures
        is_table(records.insert(todo.id, todo)),
        is_table(after_update(records, id, change)),
        is_table(after_delete(records, id)),
{
}

/// An update returns the record that is stored afterwards, changes only the
/// fields that it names, and leaves every other record and the number of
/// records as they were.
pub proof fn lemma_update_changes_one_record(
    records: Map<i32, TodoView>,
    id: i32,
    change: UpdateTodoView,
)
    requires
        is_table(records),
        records.contains_key(id),
    ensures
        found(after_update(records, id, change), id) == updated(records, id, change),
        after_update(records, id, change)[id].id == id,
        change.text is None ==> after_update(records, id, change)[id].text == records[id].text,
        change.completed is None ==> after_update(records, id, change)[id].completed
            == records[id].completed,
        after_update(records, id, change).len() == records.len(),
        forall|other: i32|
            other != id ==> found(after_update(records, id, change), other) == found(
                records,
                other,
            ),
{
    assert(after_update(records, id, change).dom() =~= records.dom());
}

/// On an id that the table does not hold, finding, updating and deleting all
/// fail with `NotFound` of that id, and the table stays as it is.
pub proof fn lemma_absent_id_is_not_found(
    records: Map<i32, TodoView>,
    id: i32,
    change: UpdateTodoView,
)
    requires
        !records.contains_key(id),
    ensures
        found(records, id) == Err::<TodoView, RepositoryErrorView>(
            RepositoryErrorView::NotFound(id),
        ),
        updated(records, id, change) == Err::<TodoView, RepositoryErrorView>(
            RepositoryErrorView::NotFound(id),
        ),
        deleted(records, id) == Err::<(), RepositoryErrorView>(RepositoryErrorView::NotFound(id)),
        after_update(records, id, change) == records,
        after_delete(records, id) == records,
{
    assert(after_delete(records, id) =~= records);
}

/// Deleting a record that the table holds succeeds and removes that record and
/// no other: the id is not found afterwards, no listing holds a record with
/// it, every other id gives what it gave before, and the number of records
/// falls by one.
pub proof fn lemma_delete_removes_one_record(records: Map<i32, TodoView>, id: i32)
    requires
        is_table(records),
        records.contains_key(id),
    ensures
        deleted(records, id) == Ok::<(), RepositoryErrorView>(()),
        found(after_delete(records, id), id) == Err::<TodoView, RepositoryErrorView>(
            RepositoryErrorView::NotFound(id),
        ),
        forall|items: Seq<TodoView>, i: int|
            lists(after_delete(records, id), items) && 0 <= i < items.len() ==> (
            #[trigger] items[i]).id != id && items[i] != records[id],
        forall|other: i32|
            other != id ==> found(after_delete(records, id), other) == found(records, other),
        after_delete(records, id).len() == records.len() - 1,
{
}

} // verus!
