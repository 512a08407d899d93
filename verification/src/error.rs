//! The failures that the library reports.

use crate::text::join2;
use vstd::prelude::*;

verus! {

/// A failure, with the detail that its kind carries.
#[derive(Debug)]
pub enum AppError {
    XmlParseError(String),
    HttpError(String),
    AuthError(String),
    InvalidUrl(String),
    InternalError(String),
    ValidationError(String),
}

/// The mathematical content of an [`AppError`].
pub enum AppErrorView {
    XmlParseError(Seq<char>),
    HttpError(Seq<char>),
    AuthError(Seq<char>),
    InvalidUrl(Seq<char>),
    InternalError(Seq<char>),
    ValidationError(Seq<char>),
}

impl View for AppError {
    type V = AppErrorView;

    open spec fn view(&self) -> AppErrorView {
        match self {
            AppError::XmlParseError(s) => AppErrorView::XmlParseError(s@),
            AppError::HttpError(s) => AppErrorView::HttpError(s@),
            AppError::AuthError(s) => AppErrorView::AuthError(s@),
            AppError::InvalidUrl(s) => AppErrorView::InvalidUrl(s@),
            AppError::InternalError(s) => AppErrorView::InternalError(s@),
            AppError::ValidationError(s) => AppErrorView::ValidationError(s@),
        }
    }
}

impl DeepView for AppError {
    type V = AppErrorView;

    open spec fn deep_view(&self) -> AppErrorView {
        self@
    }
}

/// The sentence that describes a failure.
pub open spec fn error_message(error: AppErrorView) -> Seq<char> {
    match error {
        AppErrorView::XmlParseError(s) => "XML parsing error: "@ + s,
        AppErrorView::HttpError(s) => "HTTP request error: "@ + s,
        AppErrorView::AuthError(s) => "Authentication failed: "@ + s,
        AppErrorView::InvalidUrl(s) => "Invalid URL: "@ + s,
        AppErrorView::InternalError(s) => "Internal server error: "@ + s,
        AppErrorView::ValidationError(s) => "Validation error: "@ + s,
    }
}

/// The HTTP status under which a failure is reported.
pub open spec fn error_status(error: AppErrorView) -> u16 {
    match error {
        AppErrorView::XmlParseError(_) => 400,
        AppErrorView::HttpError(_) => 502,
        AppErrorView::AuthError(_) => 401,
        AppErrorView::InvalidUrl(_) => 400,
        AppErrorView::InternalError(_) => 500,
        AppErrorView::ValidationError(_) => 400,
    }
}

/// What a client is told of a failure: its sentence, but for failures of a
/// fetch and internal ones, whose detail is withheld.
pub open spec fn error_public_message(error: AppErrorView) -> Seq<char> {
    match error {
        AppErrorView::HttpError(_) => "Failed to fetch XML from URL"@,
        AppErrorView::InternalError(_) => "Internal server error"@,
        _ => error_message(error),
    }
}

impl AppError {
    /// The sentence that describes the failure.
    pub fn message(&self) -> (out: String)
        ensures
            out@ == error_message(self@),
    {
        match self {
            AppError::XmlParseError(s) => join2("XML parsing error: ", s.as_str()),
            AppError::HttpError(s) => join2("HTTP request error: ", s.as_str()),
            AppError::AuthError(s) => join2("Authentication failed: ", s.as_str()),
            AppError::InvalidUrl(s) => join2("Invalid URL: ", s.as_str()),
            AppError::InternalError(s) => join2("Internal server error: ", s.as_str()),
            AppError::ValidationError(s) => join2("Validation error: ", s.as_str()),
        }
    }

    /// The HTTP status under which the failure is reported.
    pub fn status_code(&self) -> (status: u16)
        ensures
            status == error_status(self@),
    {
        match self {
            AppError::XmlParseError(_) => 400,
            AppError::HttpError(_) => 502,
            AppError::AuthError(_) => 401,
            AppError::InvalidUrl(_) => 400,
            AppError::InternalError(_) => 500,
            AppError::ValidationError(_) => 400,
        }
    }

    /// What a client is told of the failure.
    pub fn public_message(&self) -> (out: String)
        ensures
            out@ == error_public_message(self@),
    {
        match self {
            AppError::HttpError(_) => String::from_str("Failed to fetch XML from URL"),
            AppError::InternalError(_) => String::from_str("Internal server error"),
            _ => self.message(),
        }
    }
}

} // verus!
