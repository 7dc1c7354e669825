//! Status codes, the failures of the service, and the responses that report
//! them.

use vstd::prelude::*;
use vstd::string::*;

verus! {

/// The status codes that the service answers with.
#[derive(Clone, Copy, Debug, PartialEq, Eq, Structural)]
pub enum StatusCode {
    Success,
    Created,
    NoContent,
    BadRequest,
    NotFound,
    InternalServerError,
}

impl StatusCode {
    /// The number of the status code.
    pub open spec fn code(self) -> int {
        match self {
            StatusCode::Success => 200,
            StatusCode::Created => 201,
            StatusCode::NoContent => 204,
            StatusCode::BadRequest => 400,
            StatusCode::NotFound => 404,
            StatusCode::InternalServerError => 500,
        }
    }

    /// The number of the status code.
    pub fn as_u16(self) -> (code: u16)
        ensures
            code == self.code(),
    {
        match self {
            StatusCode::Success => 200,
            StatusCode::Created => 201,
            StatusCode::NoContent => 204,
            StatusCode::BadRequest => 400,
            StatusCode::NotFound => 404,
            StatusCode::InternalServerError => 500,
        }
    }
}

/// What the response to a failed lookup says.
pub open spec fn not_found_text() -> Seq<char> {
    "Resource not found"@
}

/// What the response to an internal failure says. A storage fault is
/// reported with the same text: its diagnostic stays inside the service.
pub open spec fn internal_error_text() -> Seq<char> {
    "Internal server error"@
}

/// The start of the description of a storage fault.
pub open spec fn database_error_prefix() -> Seq<char> {
    "Database error: "@
}

/// The start of the description of a rejected input.
pub open spec fn validation_error_prefix() -> Seq<char> {
    "Validation error: "@
}

/// What a storage failure says when a statement that must give a row gave
/// none.
pub open spec fn row_not_found_text() -> Seq<char> {
    "no rows returned by a query that expected to return at least one row"@
}

/// A failure of the post store.
#[derive(Debug, PartialEq, Eq)]
pub enum StoreError {
    /// A statement that must give a row gave none.
    RowNotFound,
    /// Any other fault, with its diagnostic.
    Fault(String),
}

/// A store failure in contracts.
pub enum StoreErrorView {
    RowNotFound,
    Fault(Seq<char>),
}

impl View for StoreError {
    type V = StoreErrorView;

    open spec fn view(&self) -> StoreErrorView {
        match self {
            StoreError::RowNotFound => StoreErrorView::RowNotFound,
            StoreError::Fault(diagnostic) => StoreErrorView::Fault(diagnostic@),
        }
    }
}

impl StoreErrorView {
    /// The diagnostic of the failure.
    pub open spec fn diagnostic(self) -> Seq<char> {
        match self {
            StoreErrorView::RowNotFound => row_not_found_text(),
            StoreErrorView::Fault(diagnostic) => diagnostic,
        }
    }
}

impl StoreError {
    /// The diagnostic of the failure.
    pub fn to_string(&self) -> (text: String)
        ensures
            text@ == self@.diagnostic(),
    {
        match self {
            StoreError::RowNotFound => String::from_str(
                "no rows returned by a query that expected to return at least one row",
            ),
            StoreError::Fault(diagnostic) => diagnostic.clone(),
        }
    }
}

/// A failure of a request.
#[derive(Debug, PartialEq, Eq)]
pub enum AppError {
    /// The post asked for does not exist.
    NotFound,
    /// The store failed; the text is its diagnostic.
    DatabaseError(String),
    /// The input breaks a rule; the text names the rule.
    ValidationError(String),
    /// The service failed for another reason.
    InternalError,
}

/// A request failure in contracts.
pub enum AppErrorView {
    NotFound,
    DatabaseError(Seq<char>),
    ValidationError(Seq<char>),
    InternalError,
}

/// The body of a response that reports a failure.
#[derive(Debug, PartialEq, Eq)]
pub struct ErrorBody {
    pub error: String,
    pub status: u16,
}

/// A response that reports a failure: its status code and its body.
#[derive(Debug, PartialEq, Eq)]
pub struct ErrorResponse {
    pub status: StatusCode,
    pub body: ErrorBody,
}

impl View for AppError {
    type V = AppErrorView;

    open spec fn view(&self) -> AppErrorView {
        match self {
            AppError::NotFound => AppErrorView::NotFound,
            AppError::DatabaseError(diagnostic) => AppErrorView::DatabaseError(diagnostic@),
            AppError::ValidationError(reason) => AppErrorView::ValidationError(reason@),
            AppError::InternalError => AppErrorView::InternalError,
        }
    }
}

impl AppErrorView {
    /// The status code that reports the failure.
    pub open spec fn status(self) -> StatusCode {
        match self {
            AppErrorView::NotFound => StatusCode::NotFound,
            AppErrorView::DatabaseError(_) => StatusCode::InternalServerError,
            AppErrorView::ValidationError(_) => StatusCode::BadRequest,
            AppErrorView::InternalError => StatusCode::InternalServerError,
        }
    }

    /// What the response tells the caller. A rejected input is reported with
    /// its reason; the diagnostic of a storage fault is not passed on.
    pub open spec fn message(self) -> Seq<char> {
        match self {
            AppErrorView::NotFound => not_found_text(),
            AppErrorView::DatabaseError(_) => internal_error_text(),
            AppErrorView::ValidationError(reason) => reason,
            AppErrorView::InternalError => internal_error_text(),
        }
    }

    /// The full description of the failure, for the service's own records.
    pub open spec fn description(self) -> Seq<char> {
        match self {
            AppErrorView::NotFound => not_found_text(),
            AppErrorView::DatabaseError(diagnostic) => database_error_prefix() + diagnostic,
            AppErrorView::ValidationError(reason) => validation_error_prefix() + reason,
            AppErrorView::InternalError => internal_error_text(),
        }
    }

    /// The failure that a store failure becomes where no row was asked for by
    /// its identifier: a storage fault, whatever the store reported.
    pub open spec fn of_store(error: StoreErrorView) -> AppErrorView {
        AppErrorView::DatabaseError(error.diagnostic())
    }

    /// The failure that a store failure becomes where one row was asked for
    /// by its identifier: a missing row means that the post does not exist.
    pub open spec fn of_lookup(error: StoreErrorView) -> AppErrorView {
        match error {
            StoreErrorView::RowNotFound => AppErrorView::NotFound,
            StoreErrorView::Fault(diagnostic) => AppErrorView::DatabaseError(diagnostic),
        }
    }
}

impl AppError {
    /// The status code that reports the failure.
    pub fn status_code(&self) -> (status: StatusCode)
        ensures
            status == self@.status(),
    {
        match self {
            AppError::NotFound => StatusCode::NotFound,
            AppError::DatabaseError(_) => StatusCode::InternalServerError,
            AppError::ValidationError(_) => StatusCode::BadRequest,
            AppError::InternalError => StatusCode::InternalServerError,
        }
    }

    /// What the response tells the caller.
    pub fn message(&self) -> (text: String)
        ensures
            text@ == self@.message(),
    {
        match self {
            AppError::NotFound => String::from_str("Resource not found"),
            AppError::DatabaseError(_) => String::from_str("Internal server error"),
            AppError::ValidationError(reason) => reason.clone(),
            AppError::InternalError => String::from_str("Internal server error"),
        }
    }

    /// The full description of the failure, for the service's own records.
    pub fn to_string(&self) -> (text: String)
        ensures
            text@ == self@.description(),
    {
        match self {
            AppError::NotFound => String::from_str("Resource not found"),
            AppError::DatabaseError(diagnostic) => String::from_str("Database error: ").concat(
                diagnostic.as_str(),
            ),
            AppError::ValidationError(reason) => String::from_str("Validation error: ").concat(
                reason.as_str(),
            ),
            AppError::InternalError => String::from_str("Internal server error"),
        }
    }

    /// The failure that a store failure becomes where one row was asked for
    /// by its identifier.
    pub fn from_lookup(error: StoreError) -> (failure: AppError)
        ensures
            failure@ == AppErrorView::of_lookup(error@),
    {
        match error {
            StoreError::RowNotFound => AppError::NotFound,
            StoreError::Fault(diagnostic) => AppError::DatabaseError(diagnostic),
        }
    }

    /// The response that reports the failure: the status code, and a body
    /// that holds the message and the number of the status code.
    pub fn into_response(self) -> (response: ErrorResponse)
        ensures
            response.status == self@.status(),
            response.body.error@ == self@.message(),
            response.body.status == self@.status().code(),
    {
        let status = self.status_code();
        let error = match self {
            AppError::NotFound => String::from_str("Resource not found"),
            AppError::DatabaseError(_) => String::from_str("Internal server error"),
            AppError::ValidationError(reason) => reason,
            AppError::InternalError => String::from_str("Internal server error"),
        };
        ErrorResponse { status, body: ErrorBody { error, status: status.as_u16() } }
    }
}

impl From<StoreError> for AppError {
    /// The failure that a store failure becomes where no row was asked for by
    /// its identifier.
    fn from(error: StoreError) -> (failure: AppError)
        ensures
            failure@ == AppErrorView::of_store(error@),
    {
        AppError::DatabaseError(error.to_string())
    }
}

/// The conversion makes a new text, so it is stated over views, by the
/// `ensures` of `from`, and not by a spec function on the values themselves.
impl vstd::std_specs::convert::FromSpecImpl<StoreError> for AppError {
    open spec fn obeys_from_spec() -> bool {
        false
    }

    open spec fn from_spec(error: StoreError) -> AppError {
        AppError::InternalError
    }
}

} // verus!
