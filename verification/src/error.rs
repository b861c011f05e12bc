//! Errors that a request is answered with.

use vstd::prelude::*;

verus! {

/// Why a request was refused, with the text that the caller is told.
#[derive(Debug)]
pub enum AppError {
    /// The request as a whole is not acceptable.
    BadRequest(String),
    /// A field holds a value that is not allowed.
    Validation(String),
    /// What the request asks for does not exist.
    NotFound(String),
}

/// The model of an [`AppError`].
pub enum AppErrorView {
    BadRequest(Seq<char>),
    Validation(Seq<char>),
    NotFound(Seq<char>),
}

impl View for AppError {
    type V = AppErrorView;

    open spec fn view(&self) -> AppErrorView {
        match self {
            AppError::BadRequest(text) => AppErrorView::BadRequest(text@),
            AppError::Validation(text) => AppErrorView::Validation(text@),
            AppError::NotFound(text) => AppErrorView::NotFound(text@),
        }
    }
}

} // verus!
