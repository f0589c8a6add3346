//! The service's error type and the HTTP status each kind of error answers with.

use vstd::prelude::*;

verus! {

/// An error answered to the client: its kind and a human-readable message.
#[derive(Debug, PartialEq, Eq)]
pub enum AppError {
    BadRequest(String),
    Unauthorized(String),
    Forbidden(String),
    NotFound(String),
    Internal(String),
}

/// The mathematical value of an [`AppError`]: its kind and its message as characters.
pub enum AppErrorView {
    BadRequest(Seq<char>),
    Unauthorized(Seq<char>),
    Forbidden(Seq<char>),
    NotFound(Seq<char>),
    Internal(Seq<char>),
}

impl View for AppError {
    type V = AppErrorView;

    open spec fn view(&self) -> AppErrorView {
        match self {
            AppError::BadRequest(m) => AppErrorView::BadRequest(m@),
            AppError::Unauthorized(m) => AppErrorView::Unauthorized(m@),
            AppError::Forbidden(m) => AppErrorView::Forbidden(m@),
            AppError::NotFound(m) => AppErrorView::NotFound(m@),
            AppError::Internal(m) => AppErrorView::Internal(m@),
        }
    }
}

/// The HTTP status code of each kind of error.
pub open spec fn status_of(e: AppErrorView) -> u16 {
    match e {
        AppErrorView::BadRequest(_) => 400,
        AppErrorView::Unauthorized(_) => 401,
        AppErrorView::Forbidden(_) => 403,
        AppErrorView::NotFound(_) => 404,
        AppErrorView::Internal(_) => 500,
    }
}

/// The view of a `Result` whose error is an [`AppError`], with the success
/// value kept as it is.
pub open spec fn result_view<T>(r: Result<T, AppError>) -> Result<T, AppErrorView> {
    match r {
        Ok(v) => Ok(v),
        Err(e) => Err(e@),
    }
}

impl AppError {
    /// The HTTP status code this error is answered with.
    pub fn status_code(&self) -> (code: u16)
        ensures
            code == status_of(self@),
    {
        match self {
            AppError::BadRequest(_) => 400,
            AppError::Unauthorized(_) => 401,
            AppError::Forbidden(_) => 403,
            AppError::NotFound(_) => 404,
            AppError::Internal(_) => 500,
        }
    }

    /// The message carried by this error.
    pub fn message(&self) -> (m: &String)
        ensures
            m@ == message_of(self@),
    {
        match self {
            AppError::BadRequest(m) => m,
            AppError::Unauthorized(m) => m,
            AppError::Forbidden(m) => m,
            AppError::NotFound(m) => m,
            AppError::Internal(m) => m,
        }
    }
}

/// The message of an error value.
pub open spec fn message_of(e: AppErrorView) -> Seq<char> {
    match e {
        AppErrorView::BadRequest(m) => m,
        AppErrorView::Unauthorized(m) => m,
        AppErrorView::Forbidden(m) => m,
        AppErrorView::NotFound(m) => m,
        AppErrorView::Internal(m) => m,
    }
}

} // verus!
