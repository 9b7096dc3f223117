use app_service::error::{map_storage_error, DatabaseErrorKind, Field, ServerError, StorageError};

#[test]
fn missing_row_is_not_found() {
    assert_eq!(map_storage_error(StorageError::RowNotFound), ServerError::NotFound);
}

#[test]
fn constraint_errors_are_constraint_violations() {
    for kind in [
        DatabaseErrorKind::UniqueViolation,
        DatabaseErrorKind::ForeignKeyViolation,
        DatabaseErrorKind::NotNullViolation,
        DatabaseErrorKind::CheckViolation,
    ] {
        assert_eq!(
            map_storage_error(StorageError::Database(kind)),
            ServerError::ConstraintViolation
        );
    }
}

#[test]
fn other_database_errors_are_unclassified() {
    assert_eq!(
        map_storage_error(StorageError::Database(DatabaseErrorKind::Other)),
        ServerError::Unclassified
    );
}

#[test]
fn connection_errors_are_transport_failures() {
    for raw in [
        StorageError::Io,
        StorageError::Tls,
        StorageError::PoolTimedOut,
        StorageError::PoolClosed,
        StorageError::WorkerCrashed,
    ] {
        assert_eq!(map_storage_error(raw), ServerError::TransportFailure);
    }
}

#[test]
fn anything_else_is_unclassified() {
    assert_eq!(map_storage_error(StorageError::Other), ServerError::Unclassified);
}

#[test]
fn fields_have_their_request_names() {
    assert_eq!(Field::AppId.name(), "app_id");
    assert_eq!(Field::WorkspaceId.name(), "workspace_id");
    assert_eq!(Field::UserId.name(), "user_id");
    assert_eq!(Field::Name.name(), "name");
    assert_eq!(Field::Desc.name(), "desc");
}
