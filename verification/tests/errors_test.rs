use todo_service::errors::{DbError, DbErrorInfo, DbErrorKind, ServiceError};
use todo_service::response::ResponseBody;

fn error_fields(e: &ServiceError) -> (u16, i32, String) {
    let r = e.error_response();
    match r.body {
        ResponseBody::ErrorInfo(b) => (r.status, b.code, b.message),
        _ => panic!("expected an error body"),
    }
}

#[test]
fn internal_error_maps_to_500() {
    let (status, code, message) = error_fields(&ServiceError::InternalServerError);
    assert_eq!(status, 500);
    assert_eq!(code, 500);
    assert_eq!(message, "Internal Server Error, Please try later");
}

#[test]
fn bad_request_maps_to_400_with_its_message() {
    let (status, code, message) = error_fields(&ServiceError::BadRequest(String::from("why")));
    assert_eq!(status, 400);
    assert_eq!(code, 400);
    assert_eq!(message, "why");
}

#[test]
fn not_found_maps_to_404_with_its_message() {
    let (status, code, message) = error_fields(&ServiceError::NotFound(String::from("gone")));
    assert_eq!(status, 404);
    assert_eq!(code, 404);
    assert_eq!(message, "gone");
}

#[test]
fn unauthorized_maps_to_401() {
    let (status, code, message) = error_fields(&ServiceError::Unauthorized);
    assert_eq!(status, 401);
    assert_eq!(code, 401);
    assert_eq!(message, "Unauthorized");
}

#[test]
fn unique_violation_surfaces_details_as_bad_request() {
    let e = DbError::DatabaseError(
        DbErrorKind::UniqueViolation,
        DbErrorInfo {
            details: Some(String::from("Duplicate entry 'x'")),
            message: String::from("base"),
        },
    );
    match ServiceError::from_db(&e) {
        ServiceError::BadRequest(m) => assert_eq!(m, "Duplicate entry 'x'"),
        _ => panic!("expected a bad request"),
    }
}

#[test]
fn unique_violation_without_details_surfaces_base_message() {
    let e = DbError::DatabaseError(
        DbErrorKind::UniqueViolation,
        DbErrorInfo { details: None, message: String::from("base") },
    );
    match ServiceError::from_db(&e) {
        ServiceError::BadRequest(m) => assert_eq!(m, "base"),
        _ => panic!("expected a bad request"),
    }
}

#[test]
fn other_database_failures_are_opaque() {
    let e = DbError::DatabaseError(
        DbErrorKind::OtherViolation,
        DbErrorInfo { details: None, message: String::from("base") },
    );
    assert!(matches!(ServiceError::from_db(&e), ServiceError::InternalServerError));
    assert!(matches!(
        ServiceError::from_db(&DbError::RowNotFound),
        ServiceError::InternalServerError
    ));
    assert!(matches!(
        ServiceError::from_db(&DbError::OtherFailure),
        ServiceError::InternalServerError
    ));
}

#[test]
fn display_messages_match_the_taxonomy() {
    assert_eq!(ServiceError::InternalServerError.display_message(), "Internal Server Error");
    assert_eq!(
        ServiceError::BadRequest(String::from("oops")).display_message(),
        "BadRequest: oops"
    );
    assert_eq!(ServiceError::NotFound(String::from("ignored")).display_message(), "Not Found");
    assert_eq!(ServiceError::Unauthorized.display_message(), "Unauthorized");
}
