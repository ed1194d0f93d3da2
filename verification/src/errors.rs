//! Application errors and the JSON error body sent to clients.
use vstd::prelude::*;

use crate::text::{concat, owned, push_str};

verus! {

/// Every error the services can report; each carries a human-readable detail.
#[derive(Debug)]
pub enum AppError {
    NotFound(String),
    BadRequest(String),
    UnprocessableEntity(String),
    Conflict(String),
    Unauthorized(String),
    Forbidden(String),
    Internal(String),
    Config(String),
}

pub type AppResult<T> = Result<T, AppError>;

/// The JSON body returned on every error response.
#[derive(Debug)]
pub struct ErrorBody {
    /// Machine-readable error code.
    pub code: String,
    /// Human-readable description.
    pub message: String,
    /// Echoes the request correlation ID; absent when the request had none.
    pub correlation_id: Option<String>,
}

/// The detail text that an error carries.
pub open spec fn detail_of(e: AppError) -> Seq<char> {
    match e {
        AppError::NotFound(s) => s@,
        AppError::BadRequest(s) => s@,
        AppError::UnprocessableEntity(s) => s@,
        AppError::Conflict(s) => s@,
        AppError::Unauthorized(s) => s@,
        AppError::Forbidden(s) => s@,
        AppError::Internal(s) => s@,
        AppError::Config(s) => s@,
    }
}

/// The HTTP status of an error.
pub open spec fn status_of(e: AppError) -> u16 {
    match e {
        AppError::NotFound(_) => 404,
        AppError::BadRequest(_) => 400,
        AppError::UnprocessableEntity(_) => 422,
        AppError::Conflict(_) => 409,
        AppError::Unauthorized(_) => 401,
        AppError::Forbidden(_) => 403,
        AppError::Internal(_) => 500,
        AppError::Config(_) => 500,
    }
}

/// The machine-readable code of an error.
pub open spec fn code_of(e: AppError) -> Seq<char> {
    match e {
        AppError::NotFound(_) => "NOT_FOUND"@,
        AppError::BadRequest(_) => "BAD_REQUEST"@,
        AppError::UnprocessableEntity(_) => "UNPROCESSABLE_ENTITY"@,
        AppError::Conflict(_) => "CONFLICT"@,
        AppError::Unauthorized(_) => "UNAUTHORIZED"@,
        AppError::Forbidden(_) => "FORBIDDEN"@,
        AppError::Internal(_) => "INTERNAL_ERROR"@,
        AppError::Config(_) => "INTERNAL_ERROR"@,
    }
}

/// The prefix that the error's display text puts before its detail.
pub open spec fn prefix_of(e: AppError) -> Seq<char> {
    match e {
        AppError::NotFound(_) => "Resource not found: "@,
        AppError::BadRequest(_) => "Bad request: "@,
        AppError::UnprocessableEntity(_) => "Unprocessable entity: "@,
        AppError::Conflict(_) => "Conflict: "@,
        AppError::Unauthorized(_) => "Unauthorized: "@,
        AppError::Forbidden(_) => "Forbidden: "@,
        AppError::Internal(_) => "Internal server error: "@,
        AppError::Config(_) => "Configuration error: "@,
    }
}

/// Whether the error is one whose detail is only shown with its correlation id.
pub open spec fn is_internal(e: AppError) -> bool {
    e is Internal || e is Config
}

/// The message sent to the client: the display text, or for internal errors the
/// detail tagged with the correlation id.
pub open spec fn public_message_of(e: AppError, cid: Seq<char>) -> Seq<char> {
    if is_internal(e) {
        "INTERNAL_ERROR: "@ + detail_of(e) + " (correlation_id: "@ + cid + ")"@
    } else {
        prefix_of(e) + detail_of(e)
    }
}

impl AppError {
    /// The detail text.
    pub fn detail(&self) -> (r: &str)
        ensures
            r@ == detail_of(*self),
    {
        match self {
            AppError::NotFound(s) => s.as_str(),
            AppError::BadRequest(s) => s.as_str(),
            AppError::UnprocessableEntity(s) => s.as_str(),
            AppError::Conflict(s) => s.as_str(),
            AppError::Unauthorized(s) => s.as_str(),
            AppError::Forbidden(s) => s.as_str(),
            AppError::Internal(s) => s.as_str(),
            AppError::Config(s) => s.as_str(),
        }
    }

    /// The HTTP status code.
    pub fn status(&self) -> (r: u16)
        ensures
            r == status_of(*self),
    {
        match self {
            AppError::NotFound(_) => 404,
            AppError::BadRequest(_) => 400,
            AppError::UnprocessableEntity(_) => 422,
            AppError::Conflict(_) => 409,
            AppError::Unauthorized(_) => 401,
            AppError::Forbidden(_) => 403,
            AppError::Internal(_) => 500,
            AppError::Config(_) => 500,
        }
    }

    /// The machine-readable code.
    pub fn code(&self) -> (r: &'static str)
        ensures
            r@ == code_of(*self),
    {
        match self {
            AppError::NotFound(_) => "NOT_FOUND",
            AppError::BadRequest(_) => "BAD_REQUEST",
            AppError::UnprocessableEntity(_) => "UNPROCESSABLE_ENTITY",
            AppError::Conflict(_) => "CONFLICT",
            AppError::Unauthorized(_) => "UNAUTHORIZED",
            AppError::Forbidden(_) => "FORBIDDEN",
            AppError::Internal(_) => "INTERNAL_ERROR",
            AppError::Config(_) => "INTERNAL_ERROR",
        }
    }

    fn prefix(&self) -> (r: &'static str)
        ensures
            r@ == prefix_of(*self),
    {
        match self {
            AppError::NotFound(_) => "Resource not found: ",
            AppError::BadRequest(_) => "Bad request: ",
            AppError::UnprocessableEntity(_) => "Unprocessable entity: ",
            AppError::Conflict(_) => "Conflict: ",
            AppError::Unauthorized(_) => "Unauthorized: ",
            AppError::Forbidden(_) => "Forbidden: ",
            AppError::Internal(_) => "Internal server error: ",
            AppError::Config(_) => "Configuration error: ",
        }
    }

    /// The display text of the error, e.g. `Resource not found: Invoice 7 not found`.
    pub fn message(&self) -> (r: String)
        ensures
            r@ == prefix_of(*self) + detail_of(*self),
    {
        concat(self.prefix(), self.detail())
    }

    /// The message sent to the client for a request with correlation id `cid`.
    pub fn public_message(&self, cid: &str) -> (r: String)
        ensures
            r@ == public_message_of(*self, cid@),
    {
        match self {
            AppError::Internal(_) | AppError::Config(_) => {
                let mut out = owned("INTERNAL_ERROR: ");
                push_str(&mut out, self.detail());
                push_str(&mut out, " (correlation_id: ");
                push_str(&mut out, cid);
                push_str(&mut out, ")");
                out
            },
            _ => self.message(),
        }
    }
}

/// The correlation id as the body carries it: absent when empty.
pub open spec fn cid_field(cid: Seq<char>) -> Option<Seq<char>> {
    if cid.len() == 0 {
        None
    } else {
        Some(cid)
    }
}

pub open spec fn opt_view(o: Option<String>) -> Option<Seq<char>> {
    match o {
        Some(s) => Some(s@),
        None => None,
    }
}

/// The correlation id field of an error body.
pub fn correlation_field(cid: &str) -> (r: Option<String>)
    ensures
        opt_view(r) == cid_field(cid@),
{
    if cid.is_empty() {
        None
    } else {
        Some(owned(cid))
    }
}

/// The body of the error response to a request with correlation id `cid`.
pub fn error_body(err: &AppError, cid: &str) -> (r: ErrorBody)
    ensures
        r.code@ == code_of(*err),
        r.message@ == public_message_of(*err, cid@),
        opt_view(r.correlation_id) == cid_field(cid@),
{
    ErrorBody {
        code: owned(err.code()),
        message: err.public_message(cid),
        correlation_id: correlation_field(cid),
    }
}

/// The body sent when a request lacks valid credentials.
pub fn unauthorized_body(cid: &str) -> (r: ErrorBody)
    ensures
        r.code@ == "UNAUTHORIZED"@,
        r.message@ == "Authentication required or session expired"@,
        opt_view(r.correlation_id) == cid_field(cid@),
{
    ErrorBody {
        code: owned("UNAUTHORIZED"),
        message: owned("Authentication required or session expired"),
        correlation_id: correlation_field(cid),
    }
}

/// The body sent when a request body cannot be parsed.
pub fn unprocessable_body(cid: &str) -> (r: ErrorBody)
    ensures
        r.code@ == "UNPROCESSABLE_ENTITY"@,
        r.message@ == "The request body could not be parsed or contains invalid values."@,
        opt_view(r.correlation_id) == cid_field(cid@),
{
    ErrorBody {
        code: owned("UNPROCESSABLE_ENTITY"),
        message: owned("The request body could not be parsed or contains invalid values."),
        correlation_id: correlation_field(cid),
    }
}

} // verus!

verus! {

/// Whether `e` is a `BadRequest` whose detail is `d`.
pub open spec fn is_bad_request(e: AppError, d: Seq<char>) -> bool {
    e matches AppError::BadRequest(m) && m@ == d
}

/// Whether `e` is an `UnprocessableEntity` whose detail is `d`.
pub open spec fn is_unprocessable(e: AppError, d: Seq<char>) -> bool {
    e matches AppError::UnprocessableEntity(m) && m@ == d
}

/// Whether `e` is a `Conflict` whose detail is `d`.
pub open spec fn is_conflict(e: AppError, d: Seq<char>) -> bool {
    e matches AppError::Conflict(m) && m@ == d
}

/// Whether `e` is a `NotFound` whose detail is `d`.
pub open spec fn is_not_found(e: AppError, d: Seq<char>) -> bool {
    e matches AppError::NotFound(m) && m@ == d
}

/// Whether `e` is an `Internal` error whose detail is `d`.
pub open spec fn is_internal_with(e: AppError, d: Seq<char>) -> bool {
    e matches AppError::Internal(m) && m@ == d
}

/// Whether `e` is an `Unauthorized` error whose detail is `d`.
pub open spec fn is_unauthorized(e: AppError, d: Seq<char>) -> bool {
    e matches AppError::Unauthorized(m) && m@ == d
}

/// Whether `e` is a `Forbidden` error whose detail is `d`.
pub open spec fn is_forbidden(e: AppError, d: Seq<char>) -> bool {
    e matches AppError::Forbidden(m) && m@ == d
}

/// Whether `r` failed with a `BadRequest` whose detail is `d`.
pub open spec fn fails_bad_request<T>(r: AppResult<T>, d: Seq<char>) -> bool {
    r matches Err(e) && is_bad_request(e, d)
}

/// Whether `r` failed with an `UnprocessableEntity` whose detail is `d`.
pub open spec fn fails_unprocessable<T>(r: AppResult<T>, d: Seq<char>) -> bool {
    r matches Err(e) && is_unprocessable(e, d)
}

/// Whether `r` failed with a `Conflict` whose detail is `d`.
pub open spec fn fails_conflict<T>(r: AppResult<T>, d: Seq<char>) -> bool {
    r matches Err(e) && is_conflict(e, d)
}

} // verus!
