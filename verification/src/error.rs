//! The two ways in which a repository operation fails.

use vstd::prelude::*;

verus! {

/// What a [`RepositoryError`] is, as plain mathematical values.
pub enum RepositoryErrorView {
    Unexpected(Seq<char>),
    NotFound(i32),
}

/// Why a repository operation failed.
#[derive(Debug)]
pub enum RepositoryError {
    /// The backend failed; the text is what it reported.
    Unexpected(String),
    /// No record has this id.
    NotFound(i32),
}

impl View for RepositoryError {
    type V = RepositoryErrorView;

    open spec fn view(&self) -> RepositoryErrorView {
        match self {
            RepositoryError::Unexpected(message) => RepositoryErrorView::Unexpected(message@),
            RepositoryError::NotFound(id) => RepositoryErrorView::NotFound(*id),
        }
    }
}

impl PartialEq for RepositoryError {
    fn eq(&self, other: &RepositoryError) -> (equal: bool) {
        match (self, other) {
            (RepositoryError::Unexpected(mine), RepositoryError::Unexpected(theirs)) => *mine
                == *theirs,
            (RepositoryError::NotFound(mine), RepositoryError::NotFound(theirs)) => *mine
                == *theirs,
            _ => false,
        }
    }
}

impl vstd::std_specs::cmp::PartialEqSpecImpl for RepositoryError {
    open spec fn obeys_eq_spec() -> bool {
        true
    }

    open spec fn eq_spec(&self, other: &RepositoryError) -> bool {
        self@ == other@
    }
}

impl Eq for RepositoryError {

}

/// The outcome of an operation with its value and its error seen as plain
/// mathematical values.
pub open spec fn outcome_view<T: View>(outcome: Result<T, RepositoryError>) -> Result<
    T::V,
    RepositoryErrorView,
> {
    match outcome {
        Ok(value) => Ok(value@),
        Err(error) => Err(error@),
    }
}

} // verus!
