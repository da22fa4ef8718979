use finance_lib::error::{affected_one, fetched_one, inserted, LedgerError, StoreFailure};

#[test]
fn a_failure_of_the_backend_is_told_by_its_kind() {
    assert_eq!(
        LedgerError::from_store_failure(StoreFailure::UniqueViolation),
        LedgerError::Conflict
    );
    assert_eq!(
        LedgerError::from_store_failure(StoreFailure::ForeignKeyViolation),
        LedgerError::BadRequest
    );
    assert_eq!(LedgerError::from_store_failure(StoreFailure::Other), LedgerError::InternalError);
}

#[test]
fn each_error_has_its_status() {
    assert_eq!(LedgerError::NotFound.status_code(), 404);
    assert_eq!(LedgerError::Conflict.status_code(), 409);
    assert_eq!(LedgerError::BadRequest.status_code(), 400);
    assert_eq!(LedgerError::InternalError.status_code(), 500);
}

#[test]
fn an_insert_affects_one_row() {
    assert_eq!(inserted(Ok(1)), Ok(()));
    assert_eq!(inserted(Ok(0)), Err(LedgerError::InternalError));
    assert_eq!(inserted(Ok(2)), Err(LedgerError::InternalError));
    assert_eq!(inserted(Err(StoreFailure::UniqueViolation)), Err(LedgerError::Conflict));
    assert_eq!(inserted(Err(StoreFailure::ForeignKeyViolation)), Err(LedgerError::BadRequest));
    assert_eq!(inserted(Err(StoreFailure::Other)), Err(LedgerError::InternalError));
}

#[test]
fn a_change_or_delete_affects_one_row() {
    assert_eq!(affected_one(Ok(1)), Ok(()));
    assert_eq!(affected_one(Ok(0)), Err(LedgerError::NotFound));
    assert_eq!(affected_one(Ok(2)), Err(LedgerError::InternalError));
    assert_eq!(affected_one(Ok(usize::MAX)), Err(LedgerError::InternalError));
    assert_eq!(affected_one(Err(StoreFailure::ForeignKeyViolation)), Err(LedgerError::BadRequest));
    assert_eq!(affected_one(Err(StoreFailure::Other)), Err(LedgerError::InternalError));
}

#[test]
fn a_key_selects_one_row() {
    assert_eq!(fetched_one(Ok(vec![7])), Ok(7));
    assert_eq!(fetched_one(Ok(Vec::<i32>::new())), Err(LedgerError::NotFound));
    assert_eq!(fetched_one(Ok(vec![7, 8])), Err(LedgerError::InternalError));
    assert_eq!(fetched_one::<i32>(Err(StoreFailure::Other)), Err(LedgerError::InternalError));
    assert_eq!(
        fetched_one(Ok(vec!["row".to_string()])),
        Ok("row".to_string())
    );
}
