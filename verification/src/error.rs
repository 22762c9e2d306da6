//! The errors that the API boundary reports, and what each looks like in a
//! response.

use vstd::prelude::*;
use vstd::string::StringExecFns;

verus! {

/// What went wrong with a request.
#[derive(Debug)]
pub enum AppError {
    /// The input is invalid; the text says how.
    BadRequest(String),
    /// The API key is absent, unknown, revoked or expired.
    Unauthorized,
    /// The caller's role does not allow the operation; the text says why.
    Forbidden(String),
    /// The entity does not exist; the text says which.
    NotFound(String),
    /// The caller has run out of its request budget.
    RateLimited,
    /// An unexpected failure inside the service.
    Internal,
}

/// The view of an [`AppError`].
pub enum AppErrorView {
    BadRequest(Seq<char>),
    Unauthorized,
    Forbidden(Seq<char>),
    NotFound(Seq<char>),
    RateLimited,
    Internal,
}

impl View for AppError {
    type V = AppErrorView;

    open spec fn view(&self) -> AppErrorView {
        match self {
            AppError::BadRequest(m) => AppErrorView::BadRequest(m@),
            AppError::Unauthorized => AppErrorView::Unauthorized,
            AppError::Forbidden(m) => AppErrorView::Forbidden(m@),
            AppError::NotFound(m) => AppErrorView::NotFound(m@),
            AppError::RateLimited => AppErrorView::RateLimited,
            AppError::Internal => AppErrorView::Internal,
        }
    }
}

impl AppErrorView {
    /// The HTTP status that reports the error.
    pub open spec fn status(self) -> u16 {
        match self {
            AppErrorView::BadRequest(_) => 400,
            AppErrorView::Unauthorized => 401,
            AppErrorView::Forbidden(_) => 403,
            AppErrorView::NotFound(_) => 404,
            AppErrorView::RateLimited => 429,
            AppErrorView::Internal => 500,
        }
    }

    /// The machine-readable code of the error.
    pub open spec fn code(self) -> Seq<char> {
        match self {
            AppErrorView::BadRequest(_) => "invalid_request"@,
            AppErrorView::Unauthorized => "unauthorized"@,
            AppErrorView::Forbidden(_) => "forbidden"@,
            AppErrorView::NotFound(_) => "not_found"@,
            AppErrorView::RateLimited => "rate_limited"@,
            AppErrorView::Internal => "internal_error"@,
        }
    }

    /// The message for the caller: the error's own text, or a fixed one.
    pub open spec fn message(self) -> Seq<char> {
        match self {
            AppErrorView::BadRequest(m) => m,
            AppErrorView::Unauthorized => "Invalid API key"@,
            AppErrorView::Forbidden(m) => m,
            AppErrorView::NotFound(m) => m,
            AppErrorView::RateLimited => "Too many requests"@,
            AppErrorView::Internal => "Unexpected error"@,
        }
    }
}

/// An error together with the identifier of the request that met it.
#[derive(Debug)]
pub struct ApiError {
    pub error: AppError,
    pub request_id: String,
}

/// The view of an [`ApiError`].
pub struct ApiErrorView {
    pub error: AppErrorView,
    pub request_id: Seq<char>,
}

impl View for ApiError {
    type V = ApiErrorView;

    open spec fn view(&self) -> ApiErrorView {
        ApiErrorView { error: self.error@, request_id: self.request_id@ }
    }
}

/// The inner object of an error response.
#[derive(Debug)]
pub struct ErrorBody {
    pub code: String,
    pub message: String,
    pub request_id: String,
}

/// The view of an [`ErrorBody`].
pub struct ErrorBodyView {
    pub code: Seq<char>,
    pub message: Seq<char>,
    pub request_id: Seq<char>,
}

impl View for ErrorBody {
    type V = ErrorBodyView;

    open spec fn view(&self) -> ErrorBodyView {
        ErrorBodyView { code: self.code@, message: self.message@, request_id: self.request_id@ }
    }
}

/// The body of an error response.
#[derive(Debug)]
pub struct ErrorResponse {
    pub error: ErrorBody,
}

impl View for ErrorResponse {
    type V = ErrorBodyView;

    open spec fn view(&self) -> ErrorBodyView {
        self.error@
    }
}

/// The result of an API operation.
pub type ApiResult<T> = Result<T, ApiError>;

impl AppError {
    /// Attaches the identifier of the request to the error.
    pub fn with_request_id(self, request_id: &str) -> (err: ApiError)
        ensures
            err@ == (ApiErrorView { error: self@, request_id: request_id@ }),
    {
        ApiError { error: self, request_id: String::from_str(request_id) }
    }
}

impl ApiError {
    /// The HTTP status of the response that reports this error.
    pub fn status_code(&self) -> (status: u16)
        ensures
            status == self@.error.status(),
    {
        match &self.error {
            AppError::BadRequest(_) => 400,
            AppError::Unauthorized => 401,
            AppError::Forbidden(_) => 403,
            AppError::NotFound(_) => 404,
            AppError::RateLimited => 429,
            AppError::Internal => 500,
        }
    }

    /// The body of the response that reports this error: its code, its
    /// message and the request identifier.
    pub fn into_body(self) -> (body: ErrorResponse)
        ensures
            body@ == (ErrorBodyView {
                code: self@.error.code(),
                message: self@.error.message(),
                request_id: self@.request_id,
            }),
    {
        let (code, message): (&'static str, String) = match self.error {
            AppError::BadRequest(m) => ("invalid_request", m),
            AppError::Unauthorized => ("unauthorized", String::from_str("Invalid API key")),
            AppError::Forbidden(m) => ("forbidden", m),
            AppError::NotFound(m) => ("not_found", m),
            AppError::RateLimited => ("rate_limited", String::from_str("Too many requests")),
            AppError::Internal => ("internal_error", String::from_str("Unexpected error")),
        };
        ErrorResponse {
            error: ErrorBody {
                code: String::from_str(code),
                message,
                request_id: self.request_id,
            },
        }
    }
}

} // verus!
