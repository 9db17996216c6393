//! The error taxonomy of the backend.

use vstd::prelude::*;
use vstd::string::StringExecFns;

verus! {

/// What a request can fail with. Each variant carries the reason that is
/// shown to the client.
#[derive(Debug)]
pub enum AppError {
    /// The store refused or failed an operation.
    DatabaseError(String),
    /// The resource is absent.
    NotFound(String),
    /// The bearer credential is missing or invalid.
    Unauthorized(String),
    /// The resolver denied the action, or a share link's password did not match.
    Forbidden(String),
    /// The request is malformed, names an unknown action, or the share link is
    /// expired or used up.
    BadRequest(String),
    /// A collaborator failed.
    InternalServerError(String),
    /// A request body broke a validation rule.
    ValidationError(String),
}

/// The mathematical value of an [`AppError`]: the variant and the reason as a
/// sequence of characters.
pub enum AppErrorView {
    DatabaseError(Seq<char>),
    NotFound(Seq<char>),
    Unauthorized(Seq<char>),
    Forbidden(Seq<char>),
    BadRequest(Seq<char>),
    InternalServerError(Seq<char>),
    ValidationError(Seq<char>),
}

impl AppErrorView {
    /// The reason carried by the error.
    pub open spec fn message(self) -> Seq<char> {
        match self {
            AppErrorView::DatabaseError(m) => m,
            AppErrorView::NotFound(m) => m,
            AppErrorView::Unauthorized(m) => m,
            AppErrorView::Forbidden(m) => m,
            AppErrorView::BadRequest(m) => m,
            AppErrorView::InternalServerError(m) => m,
            AppErrorView::ValidationError(m) => m,
        }
    }

    /// The HTTP status class of the error.
    pub open spec fn status_code(self) -> u16 {
        match self {
            AppErrorView::DatabaseError(_) => 500,
            AppErrorView::NotFound(_) => 404,
            AppErrorView::Unauthorized(_) => 401,
            AppErrorView::Forbidden(_) => 403,
            AppErrorView::BadRequest(_) => 400,
            AppErrorView::InternalServerError(_) => 500,
            AppErrorView::ValidationError(_) => 400,
        }
    }

    /// The words that precede the reason in the error's rendering.
    pub open spec fn label(self) -> Seq<char> {
        match self {
            AppErrorView::DatabaseError(_) => "Database error: "@,
            AppErrorView::NotFound(_) => "Not found: "@,
            AppErrorView::Unauthorized(_) => "Unauthorized: "@,
            AppErrorView::Forbidden(_) => "Forbidden: "@,
            AppErrorView::BadRequest(_) => "Bad request: "@,
            AppErrorView::InternalServerError(_) => "Internal server error: "@,
            AppErrorView::ValidationError(_) => "Validation error: "@,
        }
    }

    /// The rendering of the error: its label, then its reason.
    pub open spec fn rendering(self) -> Seq<char> {
        self.label() + self.message()
    }
}

impl View for AppError {
    type V = AppErrorView;

    open spec fn view(&self) -> AppErrorView {
        match self {
            AppError::DatabaseError(m) => AppErrorView::DatabaseError(m@),
            AppError::NotFound(m) => AppErrorView::NotFound(m@),
            AppError::Unauthorized(m) => AppErrorView::Unauthorized(m@),
            AppError::Forbidden(m) => AppErrorView::Forbidden(m@),
            AppError::BadRequest(m) => AppErrorView::BadRequest(m@),
            AppError::InternalServerError(m) => AppErrorView::InternalServerError(m@),
            AppError::ValidationError(m) => AppErrorView::ValidationError(m@),
        }
    }
}

impl AppError {
    /// The reason carried by the error.
    pub fn message(&self) -> (m: &str)
        ensures
            m@ == self@.message(),
    {
        match self {
            AppError::DatabaseError(m) => m.as_str(),
            AppError::NotFound(m) => m.as_str(),
            AppError::Unauthorized(m) => m.as_str(),
            AppError::Forbidden(m) => m.as_str(),
            AppError::BadRequest(m) => m.as_str(),
            AppError::InternalServerError(m) => m.as_str(),
            AppError::ValidationError(m) => m.as_str(),
        }
    }

    /// The HTTP status that answers a request failing with this error.
    pub fn status_code(&self) -> (code: u16)
        ensures
            code == self@.status_code(),
    {
        match self {
            AppError::DatabaseError(_) => 500,
            AppError::NotFound(_) => 404,
            AppError::Unauthorized(_) => 401,
            AppError::Forbidden(_) => 403,
            AppError::BadRequest(_) => 400,
            AppError::InternalServerError(_) => 500,
            AppError::ValidationError(_) => 400,
        }
    }

    /// The error as one line of text: the variant's label, then the reason.
    pub fn to_string(&self) -> (s: String)
        ensures
            s@ == self@.rendering(),
    {
        let label = match self {
            AppError::DatabaseError(_) => "Database error: ",
            AppError::NotFound(_) => "Not found: ",
            AppError::Unauthorized(_) => "Unauthorized: ",
            AppError::Forbidden(_) => "Forbidden: ",
            AppError::BadRequest(_) => "Bad request: ",
            AppError::InternalServerError(_) => "Internal server error: ",
            AppError::ValidationError(_) => "Validation error: ",
        };
        String::from_str(label).concat(self.message())
    }

    /// The error that answers a failure of the store: `NotFound` where the
    /// store found no row, `DatabaseError` with the store's words otherwise.
    pub fn from_store_failure(row_missing: bool, description: String) -> (e: AppError)
        ensures
            row_missing ==> e@ == AppErrorView::NotFound("Resource not found"@),
            !row_missing ==> e@ == AppErrorView::DatabaseError(description@),
    {
        if row_missing {
            AppError::NotFound(String::from_str("Resource not found"))
        } else {
            AppError::DatabaseError(description)
        }
    }
}

/// The result `r` has the mathematical value `expected`: both succeed with
/// the same value, or both fail with the same error.
pub open spec fn answers<T: View>(
    r: std::result::Result<T, AppError>,
    expected: std::result::Result<T::V, AppErrorView>,
) -> bool {
    match (r, expected) {
        (Ok(v), Ok(e)) => v@ == e,
        (Err(x), Err(e)) => x@ == e,
        _ => false,
    }
}

/// The result of an operation of the backend.
pub type Result<T> = std::result::Result<T, AppError>;

} // verus!
