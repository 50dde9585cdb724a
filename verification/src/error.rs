//! The two-tier error taxonomy: business errors raised by the entity
//! services, transport errors answered over HTTP, and the fixed, total
//! mapping from the first to the second.

use vstd::prelude::*;

verus! {

/// A business error of the entity services; no HTTP concept appears here.
#[derive(Debug)]
pub enum ServiceError {
    /// The addressed row does not exist.
    NotFound,
    /// A row with the same unique value already exists.
    AlreadyExists(String),
    /// The row store failed; the detail never reaches the caller.
    Database(String),
}

/// Mathematical view of a [`ServiceError`].
pub ghost enum ServiceErrorView {
    NotFound,
    AlreadyExists(Seq<char>),
    Database(Seq<char>),
}

impl View for ServiceError {
    type V = ServiceErrorView;

    open spec fn view(&self) -> ServiceErrorView {
        match self {
            ServiceError::NotFound => ServiceErrorView::NotFound,
            ServiceError::AlreadyExists(d) => ServiceErrorView::AlreadyExists(d@),
            ServiceError::Database(d) => ServiceErrorView::Database(d@),
        }
    }
}

/// The serialized form of a transport error: a category label and an
/// optional detail.
#[derive(Debug)]
pub struct ErrorResponse {
    pub error: String,
    pub details: Option<String>,
}

/// Mathematical view of an [`ErrorResponse`].
#[verifier::ext_equal]
pub ghost struct ErrorResponseView {
    pub error: Seq<char>,
    pub details: Option<Seq<char>>,
}

impl View for ErrorResponse {
    type V = ErrorResponseView;

    open spec fn view(&self) -> ErrorResponseView {
        ErrorResponseView { error: self.error@, details: self.details.deep_view() }
    }
}

/// A transport error, one per answerable failure category.
#[derive(Debug)]
pub enum ApiError {
    NotFound,
    BadRequest(String),
    ValidationError(String),
    Conflict(String),
    InternalError(String),
    DatabaseError(String),
}

/// Mathematical view of an [`ApiError`].
pub ghost enum ApiErrorView {
    NotFound,
    BadRequest(Seq<char>),
    ValidationError(Seq<char>),
    Conflict(Seq<char>),
    InternalError(Seq<char>),
    DatabaseError(Seq<char>),
}

impl View for ApiError {
    type V = ApiErrorView;

    open spec fn view(&self) -> ApiErrorView {
        match self {
            ApiError::NotFound => ApiErrorView::NotFound,
            ApiError::BadRequest(d) => ApiErrorView::BadRequest(d@),
            ApiError::ValidationError(d) => ApiErrorView::ValidationError(d@),
            ApiError::Conflict(d) => ApiErrorView::Conflict(d@),
            ApiError::InternalError(d) => ApiErrorView::InternalError(d@),
            ApiError::DatabaseError(d) => ApiErrorView::DatabaseError(d@),
        }
    }
}

/// The fixed mapping of business errors onto transport errors: a missing row
/// answers as not-found, a duplicate as a conflict with its detail kept, and
/// a store failure as a database error whose detail stays server-side.
pub open spec fn api_error_of_service(e: ServiceErrorView) -> ApiErrorView {
    match e {
        ServiceErrorView::NotFound => ApiErrorView::NotFound,
        ServiceErrorView::AlreadyExists(d) => ApiErrorView::Conflict(d),
        ServiceErrorView::Database(d) => ApiErrorView::DatabaseError(d),
    }
}

/// The HTTP status of each transport error.
pub open spec fn api_status(e: ApiErrorView) -> u16 {
    match e {
        ApiErrorView::NotFound => 404,
        ApiErrorView::BadRequest(_) => 400,
        ApiErrorView::ValidationError(_) => 422,
        ApiErrorView::Conflict(_) => 409,
        ApiErrorView::InternalError(_) => 500,
        ApiErrorView::DatabaseError(_) => 500,
    }
}

/// The body of each transport error: its category label, with the detail
/// kept only where it is safe to show (bad requests, validation failures
/// and conflicts; never internal or store failures).
pub open spec fn api_body(e: ApiErrorView) -> ErrorResponseView {
    match e {
        ApiErrorView::NotFound => ErrorResponseView { error: "Resource not found"@, details: None },
        ApiErrorView::BadRequest(d) => ErrorResponseView {
            error: "Bad request"@,
            details: Some(d),
        },
        ApiErrorView::ValidationError(d) => ErrorResponseView {
            error: "Validation error"@,
            details: Some(d),
        },
        ApiErrorView::Conflict(d) => ErrorResponseView { error: "Conflict"@, details: Some(d) },
        ApiErrorView::InternalError(_) => ErrorResponseView {
            error: "Internal server error"@,
            details: None,
        },
        ApiErrorView::DatabaseError(_) => ErrorResponseView {
            error: "Database error"@,
            details: None,
        },
    }
}

impl ApiError {
    /// Maps a business error onto its transport error; the mapping is total
    /// and fixed.
    pub fn from_service(e: ServiceError) -> (r: ApiError)
        ensures
            r@ == api_error_of_service(e@),
    {
        match e {
            ServiceError::NotFound => ApiError::NotFound,
            ServiceError::AlreadyExists(d) => ApiError::Conflict(d),
            ServiceError::Database(d) => ApiError::DatabaseError(d),
        }
    }

    /// The not-found transport error.
    pub fn not_found() -> (r: ApiError)
        ensures
            r@ == ApiErrorView::NotFound,
    {
        ApiError::NotFound
    }

    /// A bad-request transport error with its detail.
    pub fn bad_request(msg: String) -> (r: ApiError)
        ensures
            r@ == ApiErrorView::BadRequest(msg@),
    {
        ApiError::BadRequest(msg)
    }

    /// An internal transport error; the detail is for the server log only.
    pub fn internal(msg: String) -> (r: ApiError)
        ensures
            r@ == ApiErrorView::InternalError(msg@),
    {
        ApiError::InternalError(msg)
    }

    /// The HTTP status and serialized body this error answers with.
    pub fn response_parts(&self) -> (r: (u16, ErrorResponse))
        ensures
            r.0 == api_status(self@),
            r.1@ == api_body(self@),
    {
        match self {
            ApiError::NotFound => (
                404,
                ErrorResponse { error: "Resource not found".to_owned(), details: None },
            ),
            ApiError::BadRequest(msg) => (
                400,
                ErrorResponse { error: "Bad request".to_owned(), details: Some(msg.clone()) },
            ),
            ApiError::ValidationError(msg) => (
                422,
                ErrorResponse { error: "Validation error".to_owned(), details: Some(msg.clone()) },
            ),
            ApiError::Conflict(msg) => (
                409,
                ErrorResponse { error: "Conflict".to_owned(), details: Some(msg.clone()) },
            ),
            ApiError::InternalError(_) => (
                500,
                ErrorResponse { error: "Internal server error".to_owned(), details: None },
            ),
            ApiError::DatabaseError(_) => (
                500,
                ErrorResponse { error: "Database error".to_owned(), details: None },
            ),
        }
    }
}

/// The status and disclosure each business error answers with: a missing
/// row as 404, a duplicate as 409 with its detail kept word for word, a
/// store failure as 500 with its detail suppressed.
pub proof fn lemma_service_error_mapping(d: Seq<char>)
    ensures
        api_status(api_error_of_service(ServiceErrorView::NotFound)) == 404,
        api_status(api_error_of_service(ServiceErrorView::AlreadyExists(d))) == 409,
        api_status(api_error_of_service(ServiceErrorView::Database(d))) == 500,
        api_body(api_error_of_service(ServiceErrorView::AlreadyExists(d))).error == "Conflict"@,
        api_body(api_error_of_service(ServiceErrorView::AlreadyExists(d))).details == Some(d),
        api_body(api_error_of_service(ServiceErrorView::Database(d))).details is None,
{
}

} // verus!
