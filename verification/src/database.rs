//! A repository that keeps its records in a table of a relational database.
//!
//! The table is `todos(id, text, completed)`, and each operation is one
//! statement on it. Running a statement means waiting for the database, and
//! that is the caller's part: it runs the statement of the operation on the
//! repository's pool and hands the answer to the repository, which says what
//! the operation returns. The answer is the row or the rows that came back,
//! the number of rows that a deletion removed, or the failure.
//!
//! Two things are taken on trust from `sqlx`: that `sqlx::Error` is a type, and
//! the test in [`is_row_not_found`]. Nothing is claimed of either.

use vstd::prelude::*;
use crate::error::{outcome_view, RepositoryError, RepositoryErrorView};
use crate::model::{merged, Todo, TodoView, UpdateTodoView};
use crate::records::{deleted, found, updated};

verus! {

/// `sqlx::Error`, the error of every `sqlx` call. Nothing of what it holds is
/// known here: a value of it is only handed on.
#[verifier::external_type_specification]
#[verifier::external_body]
pub struct ExSqlxError(sqlx::Error);

/// Whether `error` is the variant `sqlx::Error::RowNotFound`, which `sqlx`
/// returns where a statement had to return a row and returned none. The
/// contract claims nothing of the answer.
#[verifier::external_body]
fn is_row_not_found(error: &sqlx::Error) -> (missing: bool) {
    matches!(error, sqlx::Error::RowNotFound)
}

/// What a [`BackendFailure`] is, as plain mathematical values.
pub struct BackendFailureView {
    pub row_not_found: bool,
    pub message: Seq<char>,
}

/// A failed statement, as the backend reports it.
#[derive(Debug)]
pub struct BackendFailure {
    /// The statement had to return a row and returned none.
    pub row_not_found: bool,
    /// The backend's own description of the failure.
    pub message: String,
}

impl View for BackendFailure {
    type V = BackendFailureView;

    open spec fn view(&self) -> BackendFailureView {
        BackendFailureView { row_not_found: self.row_not_found, message: self.message@ }
    }
}

/// The error for a failed statement on the row `id`: a missing row means that
/// no record has the id, and anything else is unexpected and keeps the
/// backend's message.
pub open spec fn failure_on(id: i32, failure: BackendFailureView) -> RepositoryErrorView {
    if failure.row_not_found {
        RepositoryErrorView::NotFound(id)
    } else {
        RepositoryErrorView::Unexpected(failure.message)
    }
}

/// The result of an operation that asks for the row `id`.
pub open spec fn fetched(id: i32, answer: Result<TodoView, BackendFailureView>) -> Result<
    TodoView,
    RepositoryErrorView,
> {
    match answer {
        Ok(row) => Ok(row),
        Err(failure) => Err(failure_on(id, failure)),
    }
}

/// The result of a deletion of the row `id` that removed `answer` rows.
pub open spec fn removed(id: i32, answer: Result<u64, BackendFailureView>) -> Result<
    (),
    RepositoryErrorView,
> {
    match answer {
        Ok(rows) => if rows == 0 {
            Err(RepositoryErrorView::NotFound(id))
        } else {
            Ok(())
        },
        Err(failure) => Err(failure_on(id, failure)),
    }
}

/// An answer with the row and the failure seen as plain mathematical values.
pub open spec fn answer_view<T: View>(answer: Result<T, BackendFailure>) -> Result<
    T::V,
    BackendFailureView,
> {
    match answer {
        Ok(value) => Ok(value@),
        Err(failure) => Err(failure@),
    }
}

impl BackendFailure {
    /// The failure that `error` reports: whether it is a missing row, and the
    /// text that the error displays.
    pub fn of(error: &sqlx::Error) -> (failure: BackendFailure)
        ensures
            vstd::string::to_string_from_display_ensures::<sqlx::Error>(error, failure.message),
    {
        BackendFailure { row_not_found: is_row_not_found(error), message: error.to_string() }
    }

    /// The error for a failure of a statement that concerns no single row.
    pub fn into_unexpected(self) -> (error: RepositoryError)
        ensures
            error@ == RepositoryErrorView::Unexpected(self.message@),
    {
        RepositoryError::Unexpected(self.message)
    }

    /// The error for a failure of a statement on the row `id`.
    pub fn into_error_on(self, id: i32) -> (error: RepositoryError)
        ensures
            error@ == failure_on(id, self@),
    {
        if self.row_not_found {
            RepositoryError::NotFound(id)
        } else {
            RepositoryError::Unexpected(self.message)
        }
    }
}

/// The repository over the table `todos`, with the pool of connections `P` on
/// which the caller runs the statements.
#[derive(Debug)]
pub struct TodoRepositoryForDb<P> {
    pool: P,
}

impl<P: Clone> Clone for TodoRepositoryForDb<P> {
    /// A second handle on the same pool, as far as the pool's own `clone` gives
    /// one.
    fn clone(&self) -> (copy: TodoRepositoryForDb<P>)
        ensures
            cloned(self.connections(), copy.connections()),
    {
        TodoRepositoryForDb { pool: self.pool.clone() }
    }
}

impl<P> TodoRepositoryForDb<P> {
    /// The pool that the repository was made with.
    pub closed spec fn connections(&self) -> P {
        self.pool
    }

    /// A repository on `pool`.
    pub fn new(pool: P) -> (repository: TodoRepositoryForDb<P>)
        ensures
            repository.connections() == pool,
    {
        TodoRepositoryForDb { pool }
    }

    /// The pool on which to run the statements.
    pub fn pool(&self) -> (pool: &P)
        ensures
            *pool == self.connections(),
    {
        &self.pool
    }

    /// The result of `create`, from the answer to the insertion that returns
    /// the new row: every failure is unexpected.
    pub fn create(&self, answer: Result<Todo, BackendFailure>) -> (outcome: Result<
        Todo,
        RepositoryError,
    >)
        ensures
            outcome_view(outcome) == match answer {
                Ok(row) => Ok::<TodoView, RepositoryErrorView>(row@),
                Err(failure) => Err(RepositoryErrorView::Unexpected(failure.message@)),
            },
    {
        match answer {
            Ok(row) => Ok(row),
            Err(failure) => Err(failure.into_unexpected()),
        }
    }

    /// The result of `find`, from the answer to the selection of the row `id`:
    /// a missing row means `NotFound(id)`.
    pub fn find(&self, id: i32, answer: Result<Todo, BackendFailure>) -> (outcome: Result<
        Todo,
        RepositoryError,
    >)
        ensures
            outcome_view(outcome) == fetched(id, answer_view(answer)),
    {
        match answer {
            Ok(row) => Ok(row),
            Err(failure) => Err(failure.into_error_on(id)),
        }
    }

    /// The result of `all`, from the answer to the selection of every row: the
    /// rows in the order in which the backend gave them, and every failure is
    /// unexpected.
    pub fn all(&self, answer: Result<Vec<Todo>, BackendFailure>) -> (outcome: Result<
        Vec<Todo>,
        RepositoryError,
    >)
        ensures
            match answer {
                Ok(rows) => outcome == Ok::<Vec<Todo>, RepositoryError>(rows),
                Err(failure) => outcome matches Err(error) && error@
                    == RepositoryErrorView::Unexpected(failure.message@),
            },
    {
        match answer {
            Ok(rows) => Ok(rows),
            Err(failure) => Err(failure.into_unexpected()),
        }
    }

    /// The result of `update`, from the answer to the update of the row `id`
    /// that returns the row as it is afterwards: a missing row means
    /// `NotFound(id)`.
    pub fn update(&self, id: i32, answer: Result<Todo, BackendFailure>) -> (outcome: Result<
        Todo,
        RepositoryError,
    >)
        ensures
            outcome_view(outcome) == fetched(id, answer_view(answer)),
    {
        match answer {
            Ok(row) => Ok(row),
            Err(failure) => Err(failure.into_error_on(id)),
        }
    }

    /// The result of `delete`, from the number of rows that the deletion of
    /// the row `id` removed: none means `NotFound(id)`.
    pub fn delete(&self, id: i32, answer: Result<u64, BackendFailure>) -> (outcome: Result<
        (),
        RepositoryError,
    >)
        ensures
            outcome_view(outcome) == removed(id, answer_view(answer)),
    {
        match answer {
            Ok(rows) => if rows == 0 {
                Err(RepositoryError::NotFound(id))
            } else {
                Ok(())
            },
            Err(failure) => Err(failure.into_error_on(id)),
        }
    }
}

/// The backend answers truthfully a statement that returns one row, where
/// `row` is the row that the table holds for it, or `None` where it holds
/// none: it answers with that row, with a missing row only where there is
/// none, or with another failure.
pub open spec fn answers_row(row: Option<TodoView>, answer: Result<TodoView, BackendFailureView>) -> bool {
    match answer {
        Ok(returned) => row == Some(returned),
        Err(failure) => failure.row_not_found ==> row is None,
    }
}

/// The backend answers truthfully the deletion of a row that the table holds,
/// if `held`, or does not hold: with one removed row or with none, or with a
/// failure that is no missing row.
pub open spec fn answers_deletion(held: bool, answer: Result<u64, BackendFailureView>) -> bool {
    match answer {
        Ok(rows) => rows == if held {
            1u64
        } else {
            0u64
        },
        Err(failure) => !failure.row_not_found,
    }
}

/// With a backend that answers truthfully, finding, updating and deleting the
/// row `id` each either fail as unexpected or give what the table of records
/// says: the record as it is, the merged record, success, or `NotFound(id)`.
pub proof fn lemma_truthful_answers_give_the_table(
    records: Map<i32, TodoView>,
    id: i32,
    change: UpdateTodoView,
    selected: Result<TodoView, BackendFailureView>,
    changed: Result<TodoView, BackendFailureView>,
    removed_rows: Result<u64, BackendFailureView>,
)
    requires
        answers_row(
            if records.contains_key(id) {
                Some(records[id])
            } else {
                None
            },
            selected,
        ),
        answers_row(
            if records.contains_key(id) {
                Some(merged(records[id], change))
            } else {
                None
            },
            changed,
        ),
        answers_deletion(records.contains_key(id), removed_rows),
    ensures
        fetched(id, selected) matches Err(RepositoryErrorView::Unexpected(_)) || fetched(
            id,
            selected,
        ) == found(records, id),
        fetched(id, changed) matches Err(RepositoryErrorView::Unexpected(_)) || fetched(
            id,
            changed,
        ) == updated(records, id, change),
        removed(id, removed_rows) matches Err(RepositoryErrorView::Unexpected(_)) || removed(
            id,
            removed_rows,
        ) == deleted(records, id),
{
}

} // verus!
