use todos::database::{BackendFailure, TodoRepositoryForDb};
use todos::error::RepositoryError;
use todos::model::Todo;

fn repository() -> TodoRepositoryForDb<&'static str> {
    TodoRepositoryForDb::new("pool")
}

fn missing_row() -> BackendFailure {
    BackendFailure {
        row_not_found: true,
        message: "no rows returned".to_string(),
    }
}

fn broken_pipe() -> BackendFailure {
    BackendFailure {
        row_not_found: false,
        message: "broken pipe".to_string(),
    }
}

#[test]
fn failure_without_a_row_is_unexpected() {
    assert_eq!(
        RepositoryError::Unexpected("broken pipe".to_string()),
        broken_pipe().into_unexpected()
    );
    assert_eq!(
        RepositoryError::Unexpected("no rows returned".to_string()),
        missing_row().into_unexpected()
    );
}

#[test]
fn failure_on_a_row_tells_a_missing_row_apart() {
    assert_eq!(RepositoryError::NotFound(5), missing_row().into_error_on(5));
    assert_eq!(
        RepositoryError::Unexpected("broken pipe".to_string()),
        broken_pipe().into_error_on(5)
    );
}

#[test]
fn inserted_row_is_returned() {
    let row = Todo::new(12, "inserted".to_string());
    assert_eq!(Ok(row.clone()), repository().create(Ok(row)));
}

#[test]
fn failed_insertion_is_unexpected() {
    assert_eq!(
        Err(RepositoryError::Unexpected("broken pipe".to_string())),
        repository().create(Err(broken_pipe()))
    );
    assert_eq!(
        Err(RepositoryError::Unexpected("no rows returned".to_string())),
        repository().create(Err(missing_row()))
    );
}

#[test]
fn fetched_row_is_returned() {
    let row = Todo {
        id: 3,
        text: "fetched".to_string(),
        completed: true,
    };
    assert_eq!(Ok(row.clone()), repository().find(3, Ok(row)));
}

#[test]
fn missing_row_is_not_found() {
    assert_eq!(
        Err(RepositoryError::NotFound(3)),
        repository().find(3, Err(missing_row()))
    );
}

#[test]
fn failed_fetch_is_unexpected() {
    assert_eq!(
        Err(RepositoryError::Unexpected("broken pipe".to_string())),
        repository().find(3, Err(broken_pipe()))
    );
}

#[test]
fn listed_rows_keep_their_order() {
    let rows = vec![
        Todo::new(3, "c".to_string()),
        Todo::new(2, "b".to_string()),
        Todo::new(1, "a".to_string()),
    ];
    assert_eq!(Ok(rows.clone()), repository().all(Ok(rows)));
    assert_eq!(Ok(Vec::new()), repository().all(Ok(Vec::new())));
}

#[test]
fn failed_listing_is_unexpected() {
    assert_eq!(
        Err(RepositoryError::Unexpected("broken pipe".to_string())),
        repository().all(Err(broken_pipe()))
    );
}

#[test]
fn deletion_of_no_row_is_not_found() {
    assert_eq!(Err(RepositoryError::NotFound(8)), repository().delete(8, Ok(0)));
}

#[test]
fn deletion_of_a_row_succeeds() {
    assert_eq!(Ok(()), repository().delete(8, Ok(1)));
}

#[test]
fn failed_deletion_maps_its_failure() {
    assert_eq!(
        Err(RepositoryError::NotFound(8)),
        repository().delete(8, Err(missing_row()))
    );
    assert_eq!(
        Err(RepositoryError::Unexpected("broken pipe".to_string())),
        repository().delete(8, Err(broken_pipe()))
    );
}

#[test]
fn missing_row_of_sqlx_is_told_apart() {
    let failure = BackendFailure::of(&sqlx::Error::RowNotFound);
    assert!(failure.row_not_found);
    assert_eq!(
        "no rows returned by a query that expected to return at least one row",
        failure.message
    );
    assert_eq!(RepositoryError::NotFound(4), failure.into_error_on(4));
}

#[test]
fn other_errors_of_sqlx_keep_their_text() {
    let failure = BackendFailure::of(&sqlx::Error::PoolTimedOut);
    assert!(!failure.row_not_found);
    assert_eq!(
        "pool timed out while waiting for an open connection",
        failure.message
    );

    let failure = BackendFailure::of(&sqlx::Error::Protocol("short read".to_string()));
    assert!(!failure.row_not_found);
    assert_eq!(
        "encountered unexpected or invalid data: short read",
        failure.message
    );
    assert_eq!(
        RepositoryError::Unexpected(
            "encountered unexpected or invalid data: short read".to_string()
        ),
        failure.into_error_on(4)
    );

    let failure = BackendFailure::of(&sqlx::Error::ColumnNotFound("text".to_string()));
    assert!(!failure.row_not_found);
    assert_eq!("no column found for name: text", failure.message);
}

#[test]
fn answer_of_sqlx_becomes_a_result() {
    let answer: Result<Todo, sqlx::Error> = Err(sqlx::Error::RowNotFound);
    assert_eq!(
        Err(RepositoryError::NotFound(2)),
        repository().find(2, answer.map_err(|error| BackendFailure::of(&error)))
    );
    let answer: Result<u64, sqlx::Error> = Err(sqlx::Error::PoolClosed);
    assert_eq!(
        Err(RepositoryError::Unexpected(
            "attempted to acquire a connection on a closed pool".to_string()
        )),
        repository().delete(2, answer.map_err(|error| BackendFailure::of(&error)))
    );
}

#[test]
fn repository_keeps_its_pool() {
    let repository = TodoRepositoryForDb::new(vec![1, 2, 3]);
    assert_eq!(&vec![1, 2, 3], repository.pool());
    let copy = repository.clone();
    assert_eq!(&vec![1, 2, 3], copy.pool());
}

#[test]
fn updated_row_is_returned() {
    let row = Todo {
        id: 6,
        text: "updated".to_string(),
        completed: true,
    };
    assert_eq!(Ok(row.clone()), repository().update(6, Ok(row)));
}

#[test]
fn update_of_a_missing_row_is_not_found() {
    assert_eq!(
        Err(RepositoryError::NotFound(6)),
        repository().update(6, Err(missing_row()))
    );
    assert_eq!(
        Err(RepositoryError::Unexpected("broken pipe".to_string())),
        repository().update(6, Err(broken_pipe()))
    );
}
