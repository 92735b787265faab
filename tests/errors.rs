use agri_api::error::AppError;
use agri_api::resource::single_row;

#[test]
fn status_codes() {
    assert_eq!(AppError::NotFound.status_code(), 404);
    assert_eq!(AppError::MissingField("bvn".to_string()).status_code(), 400);
    assert_eq!(AppError::NoFilterCriteria.status_code(), 400);
    assert_eq!(AppError::AmbiguousFilter.status_code(), 400);
    assert_eq!(AppError::InvalidLimit.status_code(), 400);
    assert_eq!(AppError::InvalidOffset.status_code(), 400);
    assert_eq!(AppError::NoUpdateFields.status_code(), 400);
    assert_eq!(AppError::DatabaseError("connection reset".to_string()).status_code(), 500);
}

#[test]
fn database_error_message_hides_cause() {
    let e = AppError::DatabaseError("password authentication failed".to_string());
    assert_eq!(e.message(), "Internal server error");
}

#[test]
fn missing_field_message_names_it() {
    assert_eq!(AppError::MissingField("gender".to_string()).message(), "Error: missing field gender");
}

#[test]
fn client_error_messages() {
    assert_eq!(AppError::NotFound.message(), "Error: record not found");
    assert_eq!(AppError::NoFilterCriteria.message(), "Error: no filter criteria provided");
    assert_eq!(AppError::InvalidLimit.message(), "Error: limit must be positive");
}

#[test]
fn errors_compare_by_variant_and_text() {
    assert_eq!(AppError::MissingField("a".to_string()), AppError::MissingField("a".to_string()));
    assert_ne!(AppError::MissingField("a".to_string()), AppError::MissingField("b".to_string()));
    assert_ne!(AppError::NotFound, AppError::NoFilterCriteria);
}

#[test]
fn no_row_is_not_found() {
    assert_eq!(single_row::<u32>(None), Err(AppError::NotFound));
    assert_eq!(single_row(Some(7u32)), Ok(7));
}
