use vstd::prelude::*;

verus! {

/// Why a request was turned down.
#[derive(Clone, Copy, Debug, PartialEq, Eq, Structural)]
pub enum ApiError {
    /// No valid token, or the token names nobody.
    Unauthenticated,
    /// The caller is known but neither owns the resource nor is an admin.
    Forbidden,
    /// No row has the requested id.
    NotFound,
    /// The relation exists already.
    Conflict,
    /// The payload names no field to change.
    BadRequest,
    /// Persistence, hashing or signing failed.
    InternalError,
}

/// The HTTP status that answers each error.
pub open spec fn status_of(e: ApiError) -> u16 {
    match e {
        ApiError::Unauthenticated => 401,
        ApiError::Forbidden => 403,
        ApiError::NotFound => 404,
        ApiError::Conflict => 409,
        ApiError::BadRequest => 400,
        ApiError::InternalError => 500,
    }
}

impl ApiError {
    /// The HTTP status code of this error.
    pub fn status_code(&self) -> (code: u16)
        ensures
            code == status_of(*self),
    {
        match self {
            ApiError::Unauthenticated => 401,
            ApiError::Forbidden => 403,
            ApiError::NotFound => 404,
            ApiError::Conflict => 409,
            ApiError::BadRequest => 400,
            ApiError::InternalError => 500,
        }
    }
}

/// The persistence layer could not carry out a read or a write. Why is of
/// no concern to the rules: the cause is logged by whoever talked to it and
/// never shown to the caller.
#[derive(Clone, Copy, Debug, PartialEq, Eq, Structural)]
pub struct StoreFailure;

/// Why the persistence layer did not insert a row.
#[derive(Clone, Copy, Debug, PartialEq, Eq, Structural)]
pub enum InsertFailure {
    /// Its uniqueness constraint refused the row: one like it exists.
    Duplicate,
    /// It could not carry out the insert.
    Failed,
}

/// What a lookup returned: the row, no row, or a failure.
pub type Lookup<T> = Result<Option<T>, StoreFailure>;

/// What a looked-up row holds.
pub open spec fn lookup_view<T: View>(found: Lookup<T>) -> Lookup<T::V> {
    match found {
        Ok(Some(row)) => Ok(Some(row@)),
        Ok(None) => Ok(None),
        Err(e) => Err(e),
    }
}

/// Reads the outcome of a step that the rules do not carry out themselves,
/// such as hashing or signing: its value, or `InternalError` where the
/// step failed, whatever the failure was.
pub fn or_internal_error<T, E>(outcome: Result<T, E>) -> (r: Result<T, ApiError>)
    ensures
        r == match outcome {
            Ok(v) => Ok::<T, ApiError>(v),
            Err(_) => Err::<T, ApiError>(ApiError::InternalError),
        },
{
    match outcome {
        Ok(v) => Ok(v),
        Err(_) => Err(ApiError::InternalError),
    }
}

/// The answer after a write: the stored entity, or `InternalError` where
/// the persistence layer failed.
pub fn persisted<T>(outcome: Result<T, StoreFailure>) -> (r: Result<T, ApiError>)
    ensures
        r == match outcome {
            Ok(v) => Ok::<T, ApiError>(v),
            Err(_) => Err::<T, ApiError>(ApiError::InternalError),
        },
{
    or_internal_error(outcome)
}

} // verus!
