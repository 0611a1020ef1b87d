//! HTTP errors: the RFC 7807 problem that each failure is answered with.
use vstd::prelude::*;
use vstd::string::*;
use crate::application::errors::{ApplicationError, ApplicationErrorView};
use crate::domain::errors::{RepositoryError, RepositoryErrorView};
use crate::domain::events::DispatchError;

verus! {

/// An HTTP error: status code and the fields of its problem document.
#[derive(Debug)]
pub struct AppError {
    pub status_code: u16,
    pub type_url: String,
    pub title: String,
    pub detail: String,
}

/// An HTTP error with its texts taken by view.
pub struct AppErrorView {
    pub status_code: u16,
    pub type_url: Seq<char>,
    pub title: Seq<char>,
    pub detail: Seq<char>,
}

impl View for AppError {
    type V = AppErrorView;

    open spec fn view(&self) -> AppErrorView {
        AppErrorView {
            status_code: self.status_code,
            type_url: self.type_url@,
            title: self.title@,
            detail: self.detail@,
        }
    }
}

/// The RFC 7807 body of an error response.
#[derive(Debug)]
pub struct ProblemDetails {
    pub type_url: String,
    pub title: String,
    pub status: u16,
    pub detail: String,
}

/// 422 for input that failed validation.
pub open spec fn validation_problem(detail: Seq<char>) -> AppErrorView {
    AppErrorView {
        status_code: 422,
        type_url: "https://datatracker.ietf.org/doc/html/rfc4918#section-11.2"@,
        title: "Validation Error"@,
        detail,
    }
}

/// 404 for a missing resource.
pub open spec fn not_found_problem(detail: Seq<char>) -> AppErrorView {
    AppErrorView {
        status_code: 404,
        type_url: "https://datatracker.ietf.org/doc/html/rfc7231#section-6.5.4"@,
        title: "Resource Not Found"@,
        detail,
    }
}

/// 409 for a conflicting write.
pub open spec fn conflict_problem(detail: Seq<char>) -> AppErrorView {
    AppErrorView {
        status_code: 409,
        type_url: "https://datatracker.ietf.org/doc/html/rfc7231#section-6.5.8"@,
        title: "Conflict"@,
        detail,
    }
}

/// 401 for a caller that is not authenticated.
pub open spec fn unauthorized_problem(detail: Seq<char>) -> AppErrorView {
    AppErrorView {
        status_code: 401,
        type_url: "https://datatracker.ietf.org/doc/html/rfc7235#section-3.1"@,
        title: "Unauthorized"@,
        detail,
    }
}

/// 400 for a malformed or refused request.
pub open spec fn bad_request_problem(detail: Seq<char>) -> AppErrorView {
    AppErrorView {
        status_code: 400,
        type_url: "https://datatracker.ietf.org/doc/html/rfc7231#section-6.5.1"@,
        title: "Bad Request"@,
        detail,
    }
}

/// 502 for a failed call to an outside service.
pub open spec fn bad_gateway_problem(detail: Seq<char>) -> AppErrorView {
    AppErrorView {
        status_code: 502,
        type_url: "https://datatracker.ietf.org/doc/html/rfc7231#section-6.6.3"@,
        title: "Bad Gateway"@,
        detail,
    }
}

/// 500 for a failure inside the service.
pub open spec fn internal_problem(detail: Seq<char>) -> AppErrorView {
    AppErrorView {
        status_code: 500,
        type_url: "https://datatracker.ietf.org/doc/html/rfc7231#section-6.6.1"@,
        title: "Internal Server Error"@,
        detail,
    }
}

/// The detail shown for every failure inside the service.
pub open spec fn hidden_detail() -> Seq<char> {
    "Internal server error"@
}

/// Whether a use-case error is a failure inside the service (a storage
/// backend or the event dispatcher), whose message is not shown.
pub open spec fn is_internal(e: ApplicationErrorView) -> bool {
    e matches ApplicationErrorView::Repository(RepositoryErrorView::Backend(_))
        || e matches ApplicationErrorView::Dispatch(_)
}

/// The HTTP error that answers a use-case error.
pub open spec fn problem_for(e: ApplicationErrorView) -> AppErrorView {
    match e {
        ApplicationErrorView::ValidationError(m) => validation_problem(m),
        ApplicationErrorView::NotFound(m) => not_found_problem(m),
        ApplicationErrorView::BadRequest(m) => bad_request_problem(m),
        ApplicationErrorView::BusinessRuleViolation(m) => bad_request_problem(m),
        ApplicationErrorView::External(m) => bad_gateway_problem(m),
        ApplicationErrorView::Repository(r) => match r {
            RepositoryErrorView::NotFound(m) => not_found_problem(m),
            RepositoryErrorView::Conflict(m) => conflict_problem(m),
            RepositoryErrorView::Backend(_) => internal_problem(hidden_detail()),
        },
        ApplicationErrorView::Dispatch(_) => internal_problem(hidden_detail()),
    }
}

impl AppError {
    /// An error with the given status and problem fields.
    pub fn new(status_code: u16, type_url: String, title: String, detail: String) -> (r: AppError)
        ensures
            r.status_code == status_code,
            r.type_url == type_url,
            r.title == title,
            r.detail == detail,
    {
        AppError { status_code, type_url, title, detail }
    }

    /// 422 "Validation Error"; `detail` is the text of the validation errors.
    pub fn validation_error(detail: String) -> (r: AppError)
        ensures
            r@ == validation_problem(detail@),
    {
        AppError {
            status_code: 422,
            type_url: String::from_str("https://datatracker.ietf.org/doc/html/rfc4918#section-11.2"),
            title: String::from_str("Validation Error"),
            detail,
        }
    }

    /// 404 "Resource Not Found".
    pub fn not_found(message: String) -> (r: AppError)
        ensures
            r@ == not_found_problem(message@),
    {
        AppError {
            status_code: 404,
            type_url: String::from_str("https://datatracker.ietf.org/doc/html/rfc7231#section-6.5.4"),
            title: String::from_str("Resource Not Found"),
            detail: message,
        }
    }

    /// 409 "Conflict".
    pub fn conflict(message: String) -> (r: AppError)
        ensures
            r@ == conflict_problem(message@),
    {
        AppError {
            status_code: 409,
            type_url: String::from_str("https://datatracker.ietf.org/doc/html/rfc7231#section-6.5.8"),
            title: String::from_str("Conflict"),
            detail: message,
        }
    }

    /// 401 "Unauthorized".
    pub fn unauthorized(message: String) -> (r: AppError)
        ensures
            r@ == unauthorized_problem(message@),
    {
        AppError {
            status_code: 401,
            type_url: String::from_str("https://datatracker.ietf.org/doc/html/rfc7235#section-3.1"),
            title: String::from_str("Unauthorized"),
            detail: message,
        }
    }

    /// 400 "Bad Request".
    pub fn bad_request(message: String) -> (r: AppError)
        ensures
            r@ == bad_request_problem(message@),
    {
        AppError {
            status_code: 400,
            type_url: String::from_str("https://datatracker.ietf.org/doc/html/rfc7231#section-6.5.1"),
            title: String::from_str("Bad Request"),
            detail: message,
        }
    }

    /// 502 "Bad Gateway".
    pub fn bad_gateway(message: String) -> (r: AppError)
        ensures
            r@ == bad_gateway_problem(message@),
    {
        AppError {
            status_code: 502,
            type_url: String::from_str("https://datatracker.ietf.org/doc/html/rfc7231#section-6.6.3"),
            title: String::from_str("Bad Gateway"),
            detail: message,
        }
    }

    /// 500 "Internal Server Error".
    pub fn internal_error(message: String) -> (r: AppError)
        ensures
            r@ == internal_problem(message@),
    {
        AppError {
            status_code: 500,
            type_url: String::from_str("https://datatracker.ietf.org/doc/html/rfc7231#section-6.6.1"),
            title: String::from_str("Internal Server Error"),
            detail: message,
        }
    }

    /// The HTTP error that answers a use-case error: client errors keep
    /// their message, failures inside the service are shown as
    /// "Internal server error".
    pub fn from_application_error(err: ApplicationError) -> (r: AppError)
        ensures
            r@ == problem_for(err@),
    {
        match err {
            ApplicationError::ValidationError(m) => AppError::validation_error(m),
            ApplicationError::NotFound(m) => AppError::not_found(m),
            ApplicationError::BadRequest(m) => AppError::bad_request(m),
            ApplicationError::BusinessRuleViolation(m) => AppError::bad_request(m),
            ApplicationError::External(m) => AppError::bad_gateway(m),
            ApplicationError::Repository(e) => match e {
                RepositoryError::NotFound(m) => AppError::not_found(m),
                RepositoryError::Conflict(m) => AppError::conflict(m),
                RepositoryError::Backend(_) => AppError::internal_error(String::from_str("Internal server error")),
            },
            ApplicationError::Dispatch(DispatchError::Backend(_)) => AppError::internal_error(
                String::from_str("Internal server error"),
            ),
        }
    }

    /// The problem document of this error, with its status.
    pub fn problem_details(self) -> (p: ProblemDetails)
        ensures
            p.type_url == self.type_url,
            p.title == self.title,
            p.status == self.status_code,
            p.detail == self.detail,
    {
        ProblemDetails { type_url: self.type_url, title: self.title, status: self.status_code, detail: self.detail }
    }
}

/// Every use-case error is answered with a client error (4xx) or a server
/// error (5xx); the server errors are exactly the internal failures and the
/// failures of outside services.
pub proof fn problems_are_http_errors(e: ApplicationErrorView)
    ensures
        400 <= problem_for(e).status_code < 600,
        problem_for(e).status_code >= 500 <==> (is_internal(e) || e is External),
{
}

/// Two internal failures are answered alike, whatever their messages: the
/// response does not reveal what went wrong inside.
pub proof fn internal_failures_look_alike(a: ApplicationErrorView, b: ApplicationErrorView)
    requires
        is_internal(a),
        is_internal(b),
    ensures
        problem_for(a) == problem_for(b),
        problem_for(a) == internal_problem(hidden_detail()),
{
}

/// A failure that is not internal is answered with its own message.
pub proof fn client_errors_keep_their_message(e: ApplicationErrorView)
    requires
        !is_internal(e),
    ensures
        problem_for(e).detail == match e {
            ApplicationErrorView::ValidationError(m) => m,
            ApplicationErrorView::NotFound(m) => m,
            ApplicationErrorView::BadRequest(m) => m,
            ApplicationErrorView::BusinessRuleViolation(m) => m,
            ApplicationErrorView::External(m) => m,
            ApplicationErrorView::Repository(RepositoryErrorView::NotFound(m)) => m,
            ApplicationErrorView::Repository(RepositoryErrorView::Conflict(m)) => m,
            _ => Seq::empty(),
        },
{
}

} // verus!
