//! Errors reported by repositories.
use vstd::prelude::*;

verus! {

/// A repository failure.
#[derive(Debug)]
pub enum RepositoryError {
    NotFound(String),
    Conflict(String),
    Backend(String),
}

/// The repository error with its message taken by view.
pub enum RepositoryErrorView {
    NotFound(Seq<char>),
    Conflict(Seq<char>),
    Backend(Seq<char>),
}

impl View for RepositoryError {
    type V = RepositoryErrorView;

    open spec fn view(&self) -> RepositoryErrorView {
        match self {
            RepositoryError::NotFound(m) => RepositoryErrorView::NotFound(m@),
            RepositoryError::Conflict(m) => RepositoryErrorView::Conflict(m@),
            RepositoryError::Backend(m) => RepositoryErrorView::Backend(m@),
        }
    }
}

} // verus!
