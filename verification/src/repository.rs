//! The five operations that every backend of the to-do list offers.

use vstd::prelude::*;
use crate::error::{outcome_view, RepositoryError};
use crate::model::{views, CreateTodo, Todo, TodoView, UpdateTodo};
use crate::records::{after_delete, after_update, deleted, found, is_table, lists, updated};

verus! {

/// A store of to-do records.
///
/// Each operation is one atomic step on the table of records. A backend may
/// fail at any time with [`RepositoryError::Unexpected`], and then it has
/// changed nothing; apart from that the outcome of an operation is fixed by
/// the table before it.
///
/// An operation that changes the table takes the repository by exclusive
/// reference, and one that only reads takes it by shared reference. An
/// implementation is `Send` and `Sync`, so that callers on several threads can
/// share one behind a lock that admits many readers or one writer.
pub trait TodoRepositoryTrait: Sized + Send + Sync + 'static {
    /// The records that the repository holds, by id.
    spec fn records(&self) -> Map<i32, TodoView>;

    /// The records are finitely many, and each is held under its own id.
    proof fn lemma_records_form_a_table(&self)
        ensures
            is_table(self.records()),
    ;

    /// Stores a new record with the payload's text, not completed, under an id
    /// that the store chooses, and returns it.
    fn create(&mut self, payload: CreateTodo) -> (outcome: Result<Todo, RepositoryError>)
        ensures
            match outcome {
                Ok(todo) => {
                    &&& todo.text@ == payload.text@
                    &&& !todo.completed
                    &&& final(self).records() == old(self).records().insert(todo.id, todo@)
                },
                Err(error) => error is Unexpected && final(self).records() == old(self).records(),
            },
    ;

    /// Returns the record `id`, or `NotFound(id)` where there is none.
    fn find(&self, id: i32) -> (outcome: Result<Todo, RepositoryError>)
        ensures
            outcome matches Err(RepositoryError::Unexpected(_)) || outcome_view(outcome) == found(
                self.records(),
                id,
            ),
    ;

    /// Returns every record once.
    fn all(&self) -> (outcome: Result<Vec<Todo>, RepositoryError>)
        ensures
            match outcome {
                Ok(todos) => lists(self.records(), views(todos@)),
                Err(error) => error is Unexpected,
            },
    ;

    /// Lays the payload over the record `id`, stores the merged record in its
    /// place and returns it, or fails with `NotFound(id)` where there is none.
    fn update(&mut self, id: i32, payload: UpdateTodo) -> (outcome: Result<Todo, RepositoryError>)
        ensures
            match outcome {
                Err(RepositoryError::Unexpected(_)) => final(self).records() == old(
                    self,
                ).records(),
                _ => {
                    &&& outcome_view(outcome) == updated(old(self).records(), id, payload@)
                    &&& final(self).records() == after_update(old(self).records(), id, payload@)
                },
            },
    ;

    /// Removes the record `id`, or fails with `NotFound(id)` where there is
    /// none.
    fn delete(&mut self, id: i32) -> (outcome: Result<(), RepositoryError>)
        ensures
            match outcome {
                Err(RepositoryError::Unexpected(_)) => final(self).records() == old(
                    self,
                ).records(),
                _ => {
                    &&& outcome_view(outcome) == deleted(old(self).records(), id)
                    &&& final(self).records() == after_delete(old(self).records(), id)
                },
            },
    ;
}

} // verus!
