use user_service::errors::{CustomError, ErrorBody, ErrorResponse};

#[test]
fn bad_request_is_400() {
    assert_eq!(CustomError::BadRequest.status(), 400);
    assert_eq!(CustomError::BadRequest.message(), "Bad Request");
}

#[test]
fn user_not_found_is_404() {
    assert_eq!(CustomError::UserNotFound.status(), 404);
    assert_eq!(CustomError::UserNotFound.message(), "User Not Found");
}

#[test]
fn internal_server_error_is_500() {
    assert_eq!(CustomError::InternalServerError.status(), 500);
    assert_eq!(CustomError::InternalServerError.message(), "Internal Server Error");
}

#[test]
fn database_error_is_500() {
    assert_eq!(CustomError::DatabaseError.status(), 500);
    assert_eq!(CustomError::DatabaseError.message(), "Could not connect to database");
}

#[test]
fn migration_error_is_500() {
    assert_eq!(CustomError::MigrationError.status(), 500);
    assert_eq!(CustomError::MigrationError.message(), "Could not migrate database");
}

#[test]
fn response_pairs_status_with_message() {
    let all = vec![
        CustomError::BadRequest,
        CustomError::UserNotFound,
        CustomError::InternalServerError,
        CustomError::DatabaseError,
        CustomError::MigrationError,
    ];
    for error in all {
        let response = error.into_response();
        assert_eq!(response.status, error.status());
        assert_eq!(response.body.error, error.message());
    }
}

#[test]
fn response_of_not_found_is_exact() {
    assert_eq!(
        CustomError::UserNotFound.into_response(),
        ErrorResponse { status: 404, body: ErrorBody { error: "User Not Found".to_string() } }
    );
}
