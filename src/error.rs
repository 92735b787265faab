//! The ways a request fails, with the status and message each is answered with.
use vstd::prelude::*;

verus! {

/// Everything a request can fail with.
#[derive(Debug)]
pub enum AppError {
    /// No row matched the identifier of a lookup, update or delete.
    NotFound,
    /// A column that a create requires was not supplied; carries its name.
    MissingField(String),
    /// A single-record lookup was asked for without any filter value.
    NoFilterCriteria,
    /// Two values of one mutually exclusive lookup group were supplied.
    AmbiguousFilter,
    /// The page size was not positive.
    InvalidLimit,
    /// The page offset was negative, or too large to number its page.
    InvalidOffset,
    /// An update named no column to change.
    NoUpdateFields,
    /// The database failed; the text is kept for logs and never sent out.
    DatabaseError(String),
}

/// HTTP status that each error is answered with.
pub open spec fn status_of(e: AppError) -> u16 {
    match e {
        AppError::NotFound => 404,
        AppError::DatabaseError(_) => 500,
        _ => 400,
    }
}

/// The text sent back for each error; a database failure gets a fixed
/// message so that nothing of its cause leaks.
pub open spec fn message_of(e: AppError) -> Seq<char> {
    match e {
        AppError::NotFound => "Error: record not found"@,
        AppError::MissingField(name) => "Error: missing field "@ + name@,
        AppError::NoFilterCriteria => "Error: no filter criteria provided"@,
        AppError::AmbiguousFilter => "Error: provide only one of the exclusive filters"@,
        AppError::InvalidLimit => "Error: limit must be positive"@,
        AppError::InvalidOffset => "Error: offset is out of range"@,
        AppError::NoUpdateFields => "Error: nothing to update"@,
        AppError::DatabaseError(_) => "Internal server error"@,
    }
}

impl AppError {
    pub fn status_code(&self) -> (r: u16)
        ensures
            r == status_of(*self),
    {
        match self {
            AppError::NotFound => 404,
            AppError::DatabaseError(_) => 500,
            _ => 400,
        }
    }

    pub fn message(&self) -> (r: String)
        ensures
            r@ == message_of(*self),
    {
        match self {
            AppError::NotFound => String::from_str("Error: record not found"),
            AppError::MissingField(name) => {
                let mut s = String::from_str("Error: missing field ");
                s.append(name.as_str());
                s
            },
            AppError::NoFilterCriteria => String::from_str("Error: no filter criteria provided"),
            AppError::AmbiguousFilter => String::from_str(
                "Error: provide only one of the exclusive filters",
            ),
            AppError::InvalidLimit => String::from_str("Error: limit must be positive"),
            AppError::InvalidOffset => String::from_str("Error: offset is out of range"),
            AppError::NoUpdateFields => String::from_str("Error: nothing to update"),
            AppError::DatabaseError(_) => String::from_str("Internal server error"),
        }
    }
}

impl PartialEq for AppError {
    fn eq(&self, o: &AppError) -> (r: bool) {
        match (self, o) {
            (AppError::NotFound, AppError::NotFound) => true,
            (AppError::MissingField(a), AppError::MissingField(b)) => *a == *b,
            (AppError::NoFilterCriteria, AppError::NoFilterCriteria) => true,
            (AppError::AmbiguousFilter, AppError::AmbiguousFilter) => true,
            (AppError::InvalidLimit, AppError::InvalidLimit) => true,
            (AppError::InvalidOffset, AppError::InvalidOffset) => true,
            (AppError::NoUpdateFields, AppError::NoUpdateFields) => true,
            (AppError::DatabaseError(a), AppError::DatabaseError(b)) => *a == *b,
            _ => false,
        }
    }
}

impl vstd::std_specs::cmp::PartialEqSpecImpl for AppError {
    open spec fn obeys_eq_spec() -> bool {
        true
    }

    open spec fn eq_spec(&self, o: &AppError) -> bool {
        match (*self, *o) {
            (AppError::NotFound, AppError::NotFound) => true,
            (AppError::MissingField(a), AppError::MissingField(b)) => a@ == b@,
            (AppError::NoFilterCriteria, AppError::NoFilterCriteria) => true,
            (AppError::AmbiguousFilter, AppError::AmbiguousFilter) => true,
            (AppError::InvalidLimit, AppError::InvalidLimit) => true,
            (AppError::InvalidOffset, AppError::InvalidOffset) => true,
            (AppError::NoUpdateFields, AppError::NoUpdateFields) => true,
            (AppError::DatabaseError(a), AppError::DatabaseError(b)) => a@ == b@,
            _ => false,
        }
    }
}

} // verus!
