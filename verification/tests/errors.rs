use blog_backend::errors::{AppError, ErrorBody, ErrorResponse, StatusCode, StoreError};

#[test]
fn status_codes_have_their_numbers() {
    assert_eq!(StatusCode::Success.as_u16(), 200);
    assert_eq!(StatusCode::Created.as_u16(), 201);
    assert_eq!(StatusCode::NoContent.as_u16(), 204);
    assert_eq!(StatusCode::BadRequest.as_u16(), 400);
    assert_eq!(StatusCode::NotFound.as_u16(), 404);
    assert_eq!(StatusCode::InternalServerError.as_u16(), 500);
}

#[test]
fn not_found_is_reported_with_404() {
    let response = AppError::NotFound.into_response();
    assert_eq!(
        response,
        ErrorResponse {
            status: StatusCode::NotFound,
            body: ErrorBody { error: "Resource not found".to_string(), status: 404 },
        }
    );
}

#[test]
fn validation_error_is_reported_with_400_and_its_reason() {
    let response = AppError::ValidationError("Content cannot be empty".to_string()).into_response();
    assert_eq!(response.status, StatusCode::BadRequest);
    assert_eq!(response.body.status, 400);
    assert_eq!(response.body.error, "Content cannot be empty");
}

#[test]
fn internal_error_is_reported_with_500() {
    let response = AppError::InternalError.into_response();
    assert_eq!(response.status, StatusCode::InternalServerError);
    assert_eq!(response.body.status, 500);
    assert_eq!(response.body.error, "Internal server error");
}

#[test]
fn storage_fault_is_reported_with_500_and_keeps_its_diagnostic_inside() {
    let failure = AppError::DatabaseError("disk I/O error at page 7".to_string());
    assert_eq!(failure.status_code(), StatusCode::InternalServerError);
    assert_eq!(failure.message(), "Internal server error");
    assert_eq!(failure.to_string(), "Database error: disk I/O error at page 7");
    let response = failure.into_response();
    assert_eq!(response.status, StatusCode::InternalServerError);
    assert_eq!(response.body.status, 500);
    assert_eq!(response.body.error, "Internal server error");
    assert!(!response.body.error.contains("disk"));
}

#[test]
fn descriptions_name_the_kind_of_failure() {
    assert_eq!(AppError::NotFound.to_string(), "Resource not found");
    assert_eq!(AppError::InternalError.to_string(), "Internal server error");
    assert_eq!(
        AppError::ValidationError("Author cannot be empty".to_string()).to_string(),
        "Validation error: Author cannot be empty"
    );
    assert_eq!(AppError::DatabaseError(String::new()).to_string(), "Database error: ");
}

#[test]
fn messages_and_status_codes_of_every_failure() {
    assert_eq!(AppError::NotFound.status_code(), StatusCode::NotFound);
    assert_eq!(AppError::NotFound.message(), "Resource not found");
    assert_eq!(AppError::InternalError.status_code(), StatusCode::InternalServerError);
    assert_eq!(AppError::InternalError.message(), "Internal server error");
    let rejected = AppError::ValidationError("Title must be at least 3 characters".to_string());
    assert_eq!(rejected.status_code(), StatusCode::BadRequest);
    assert_eq!(rejected.message(), "Title must be at least 3 characters");
}

#[test]
fn store_failures_describe_themselves() {
    assert_eq!(
        StoreError::RowNotFound.to_string(),
        "no rows returned by a query that expected to return at least one row"
    );
    assert_eq!(StoreError::Fault("pool timed out".to_string()).to_string(), "pool timed out");
}

#[test]
fn a_store_failure_becomes_a_storage_fault() {
    assert_eq!(
        AppError::from(StoreError::Fault("pool timed out".to_string())),
        AppError::DatabaseError("pool timed out".to_string())
    );
    assert_eq!(
        AppError::from(StoreError::RowNotFound),
        AppError::DatabaseError(
            "no rows returned by a query that expected to return at least one row".to_string()
        )
    );
}

#[test]
fn a_failed_lookup_becomes_not_found_only_for_a_missing_row() {
    assert_eq!(AppError::from_lookup(StoreError::RowNotFound), AppError::NotFound);
    assert_eq!(
        AppError::from_lookup(StoreError::Fault("constraint failed".to_string())),
        AppError::DatabaseError("constraint failed".to_string())
    );
}
