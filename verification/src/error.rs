//! The error taxonomy of the ledger, and how the outcome of a storage backend
//! is told in it.

use vstd::prelude::*;

verus! {

/// Why a ledger operation was refused.
#[derive(Clone, Copy, Debug, PartialEq, Eq, Structural)]
pub enum LedgerError {
    /// The requested entity does not exist in the caller's scope.
    NotFound,
    /// An entity with the same key already exists.
    Conflict,
    /// A referenced parent is missing, or dependents block a delete.
    BadRequest,
    /// The backend or the id allocator failed unexpectedly.
    InternalError,
}

/// Why a storage backend refused a statement.
#[derive(Clone, Copy, Debug, PartialEq, Eq, Structural)]
pub enum StoreFailure {
    /// A row with the same key exists.
    UniqueViolation,
    /// A referenced row is missing, or a row that is referred to was to go.
    ForeignKeyViolation,
    /// Anything else, a lost connection among it.
    Other,
}

/// The result of an operation with the view of what it returns.
pub open spec fn result_view<T: View>(r: Result<T, LedgerError>) -> Result<T::V, LedgerError> {
    match r {
        Ok(x) => Ok(x@),
        Err(e) => Err(e),
    }
}

impl LedgerError {
    /// The error that stands for a failure of the backend.
    pub open spec fn of_failure(failure: StoreFailure) -> LedgerError {
        match failure {
            StoreFailure::UniqueViolation => LedgerError::Conflict,
            StoreFailure::ForeignKeyViolation => LedgerError::BadRequest,
            StoreFailure::Other => LedgerError::InternalError,
        }
    }

    /// The HTTP status that the error is answered with.
    pub open spec fn status(self) -> u16 {
        match self {
            LedgerError::NotFound => 404,
            LedgerError::Conflict => 409,
            LedgerError::BadRequest => 400,
            LedgerError::InternalError => 500,
        }
    }

    /// Tells a failure of the backend in the taxonomy: the known violations
    /// by their kind, everything else as an internal error.
    pub fn from_store_failure(failure: StoreFailure) -> (r: LedgerError)
        ensures
            r == LedgerError::of_failure(failure),
    {
        match failure {
            StoreFailure::UniqueViolation => LedgerError::Conflict,
            StoreFailure::ForeignKeyViolation => LedgerError::BadRequest,
            StoreFailure::Other => LedgerError::InternalError,
        }
    }

    /// The HTTP status that the error is answered with.
    pub fn status_code(&self) -> (r: u16)
        ensures
            r == self.status(),
    {
        match self {
            LedgerError::NotFound => 404,
            LedgerError::Conflict => 409,
            LedgerError::BadRequest => 400,
            LedgerError::InternalError => 500,
        }
    }
}

/// The outcome of inserting one row, given the number of rows that the
/// backend reports as inserted or its failure.
pub fn inserted(outcome: Result<usize, StoreFailure>) -> (r: Result<(), LedgerError>)
    ensures
        r == match outcome {
            Ok(n) => if n == 1 {
                Ok(())
            } else {
                Err(LedgerError::InternalError)
            },
            Err(f) => Err(LedgerError::of_failure(f)),
        },
{
    match outcome {
        Ok(n) => {
            if n == 1 {
                Ok(())
            } else {
                Err(LedgerError::InternalError)
            }
        },
        Err(f) => Err(LedgerError::from_store_failure(f)),
    }
}

/// The outcome of changing or deleting the row of one key, given the number
/// of rows that the backend reports as affected or its failure. No row means
/// that the key does not exist; more than one cannot be, since keys are
/// unique.
pub fn affected_one(outcome: Result<usize, StoreFailure>) -> (r: Result<(), LedgerError>)
    ensures
        r == match outcome {
            Ok(n) => if n == 1 {
                Ok(())
            } else if n == 0 {
                Err(LedgerError::NotFound)
            } else {
                Err(LedgerError::InternalError)
            },
            Err(f) => Err(LedgerError::of_failure(f)),
        },
{
    match outcome {
        Ok(n) => {
            if n == 1 {
                Ok(())
            } else if n == 0 {
                Err(LedgerError::NotFound)
            } else {
                Err(LedgerError::InternalError)
            }
        },
        Err(f) => Err(LedgerError::from_store_failure(f)),
    }
}

/// The row of one key, given the rows that the backend selected for it or
/// its failure. No row means that the key does not exist; more than one
/// cannot be, since keys are unique.
pub fn fetched_one<T>(outcome: Result<Vec<T>, StoreFailure>) -> (r: Result<T, LedgerError>)
    ensures
        r == match outcome {
            Ok(rows) => if rows@.len() == 1 {
                Ok(rows@[0])
            } else if rows@.len() == 0 {
                Err(LedgerError::NotFound)
            } else {
                Err(LedgerError::InternalError)
            },
            Err(f) => Err(LedgerError::of_failure(f)),
        },
{
    match outcome {
        Ok(rows) => {
            let mut rows = rows;
            if rows.len() == 1 {
                Ok(rows.remove(0))
            } else if rows.len() == 0 {
                Err(LedgerError::NotFound)
            } else {
                Err(LedgerError::InternalError)
            }
        },
        Err(f) => Err(LedgerError::from_store_failure(f)),
    }
}

} // verus!
