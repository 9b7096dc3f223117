//! The error taxonomy of the service and the classification of storage
//! failures into it.

use vstd::prelude::*;

verus! {

/// A request field that is checked by a validator.
#[derive(Clone, Copy, Debug, PartialEq, Eq, Hash, Structural)]
pub enum Field {
    AppId,
    WorkspaceId,
    UserId,
    Name,
    Desc,
}

impl Field {
    /// The name under which the field appears in a request.
    pub open spec fn label(self) -> Seq<char> {
        match self {
            Field::AppId => "app_id"@,
            Field::WorkspaceId => "workspace_id"@,
            Field::UserId => "user_id"@,
            Field::Name => "name"@,
            Field::Desc => "desc"@,
        }
    }

    /// The name under which the field appears in a request.
    pub fn name(self) -> (r: &'static str)
        ensures
            r@ == self.label(),
    {
        match self {
            Field::AppId => "app_id",
            Field::WorkspaceId => "workspace_id",
            Field::UserId => "user_id",
            Field::Name => "name",
            Field::Desc => "desc",
        }
    }
}

/// What a failed operation reports to its caller.
#[derive(Clone, Copy, Debug, PartialEq, Eq, Hash, Structural)]
pub enum ServerError {
    /// A request field failed its validator; nothing was sent to the store.
    InvalidParameter(Field),
    /// A read that expects exactly one row matched none.
    NotFound,
    /// The store rejected a write because of one of its constraints.
    ConstraintViolation,
    /// No connection or transaction could be had, or it was lost.
    TransportFailure,
    /// Any other failure of the store.
    Unclassified,
}

/// The class of an error that the database itself reported.
#[derive(Clone, Copy, Debug, PartialEq, Eq, Hash, Structural)]
pub enum DatabaseErrorKind {
    UniqueViolation,
    ForeignKeyViolation,
    NotNullViolation,
    CheckViolation,
    Other,
}

/// A failure of the storage driver, reduced to what the classification reads.
#[derive(Clone, Copy, Debug, PartialEq, Eq, Hash, Structural)]
pub enum StorageError {
    /// A query that must return a row returned none.
    RowNotFound,
    /// The database answered with an error of its own.
    Database(DatabaseErrorKind),
    /// The connection failed while reading or writing.
    Io,
    /// The secure channel could not be set up.
    Tls,
    /// No pooled connection became free in time.
    PoolTimedOut,
    /// The pool was closed.
    PoolClosed,
    /// The driver's background worker is gone.
    WorkerCrashed,
    /// Anything else the driver reports.
    Other,
}

/// The domain error that stands for a storage failure.
pub open spec fn classify(raw: StorageError) -> ServerError {
    match raw {
        StorageError::RowNotFound => ServerError::NotFound,
        StorageError::Database(DatabaseErrorKind::Other) => ServerError::Unclassified,
        StorageError::Database(_) => ServerError::ConstraintViolation,
        StorageError::Io
        | StorageError::Tls
        | StorageError::PoolTimedOut
        | StorageError::PoolClosed
        | StorageError::WorkerCrashed => ServerError::TransportFailure,
        StorageError::Other => ServerError::Unclassified,
    }
}

/// Classifies a storage failure in the domain taxonomy. This is the only
/// place where driver errors are looked at.
pub fn map_storage_error(raw: StorageError) -> (e: ServerError)
    ensures
        e == classify(raw),
        !(e is InvalidParameter),
{
    match raw {
        StorageError::RowNotFound => ServerError::NotFound,
        StorageError::Database(kind) => match kind {
            DatabaseErrorKind::Other => ServerError::Unclassified,
            _ => ServerError::ConstraintViolation,
        },
        StorageError::Io => ServerError::TransportFailure,
        StorageError::Tls => ServerError::TransportFailure,
        StorageError::PoolTimedOut => ServerError::TransportFailure,
        StorageError::PoolClosed => ServerError::TransportFailure,
        StorageError::WorkerCrashed => ServerError::TransportFailure,
        StorageError::Other => ServerError::Unclassified,
    }
}

} // verus!
