//! Errors of the use cases.
use vstd::prelude::*;
use crate::domain::errors::{RepositoryError, RepositoryErrorView};
use crate::domain::events::DispatchError;

verus! {

/// Why a use case failed.
#[derive(Debug)]
pub enum ApplicationError {
    /// Input validation failed; holds the text of the validation errors.
    ValidationError(String),
    NotFound(String),
    BusinessRuleViolation(String),
    BadRequest(String),
    External(String),
    Repository(RepositoryError),
    Dispatch(DispatchError),
}

/// The error with its messages taken by view.
pub enum ApplicationErrorView {
    ValidationError(Seq<char>),
    NotFound(Seq<char>),
    BusinessRuleViolation(Seq<char>),
    BadRequest(Seq<char>),
    External(Seq<char>),
    Repository(RepositoryErrorView),
    Dispatch(Seq<char>),
}

impl View for ApplicationError {
    type V = ApplicationErrorView;

    open spec fn view(&self) -> ApplicationErrorView {
        match self {
            ApplicationError::ValidationError(m) => ApplicationErrorView::ValidationError(m@),
            ApplicationError::NotFound(m) => ApplicationErrorView::NotFound(m@),
            ApplicationError::BusinessRuleViolation(m) => ApplicationErrorView::BusinessRuleViolation(m@),
            ApplicationError::BadRequest(m) => ApplicationErrorView::BadRequest(m@),
            ApplicationError::External(m) => ApplicationErrorView::External(m@),
            ApplicationError::Repository(e) => ApplicationErrorView::Repository(e@),
            ApplicationError::Dispatch(DispatchError::Backend(m)) => ApplicationErrorView::Dispatch(m@),
        }
    }
}

/// `BadRequest` with the given message.
pub fn bad_request(msg: &str) -> (e: ApplicationError)
    ensures
        e@ == ApplicationErrorView::BadRequest(msg@),
{
    ApplicationError::BadRequest(String::from_str(msg))
}

/// `NotFound` with the given message.
pub fn not_found(msg: &str) -> (e: ApplicationError)
    ensures
        e@ == ApplicationErrorView::NotFound(msg@),
{
    ApplicationError::NotFound(String::from_str(msg))
}

} // verus!
