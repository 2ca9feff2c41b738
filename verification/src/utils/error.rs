//! The application-wide error type.

use crate::utils::text::join;
use vstd::prelude::*;
use vstd::std_specs::convert::FromSpecImpl;
use vstd::string::to_string_from_display_ensures;

verus! {

/// Errors that the services report to the command layer.
#[derive(Debug, PartialEq, Eq)]
pub enum AppError {
    /// Invalid input or parameters.
    InvalidInput(String),
    /// Resource not found.
    NotFound(String),
    /// Permission denied.
    PermissionDenied(String),
    /// Internal error.
    Internal(String),
    /// Network or IO error.
    Network(String),
    /// API error.
    Api(String),
}

/// Result type whose error is an [`AppError`].
pub type AppResult<T> = Result<T, AppError>;

/// What an [`AppError`] says: its kind and the text of its message.
pub enum AppErrorView {
    InvalidInput(Seq<char>),
    NotFound(Seq<char>),
    PermissionDenied(Seq<char>),
    Internal(Seq<char>),
    Network(Seq<char>),
    Api(Seq<char>),
}

impl AppErrorView {
    /// The message that the error carries.
    pub open spec fn message(self) -> Seq<char> {
        match self {
            AppErrorView::InvalidInput(m) => m,
            AppErrorView::NotFound(m) => m,
            AppErrorView::PermissionDenied(m) => m,
            AppErrorView::Internal(m) => m,
            AppErrorView::Network(m) => m,
            AppErrorView::Api(m) => m,
        }
    }

    /// The words that name the kind of the error when it is displayed.
    pub open spec fn label(self) -> Seq<char> {
        match self {
            AppErrorView::InvalidInput(_) => "Invalid input: "@,
            AppErrorView::NotFound(_) => "Not found: "@,
            AppErrorView::PermissionDenied(_) => "Permission denied: "@,
            AppErrorView::Internal(_) => "Internal error: "@,
            AppErrorView::Network(_) => "Network error: "@,
            AppErrorView::Api(_) => "API error: "@,
        }
    }

    /// The error as one line of text: the label, then the message.
    pub open spec fn display(self) -> Seq<char> {
        self.label() + self.message()
    }
}

impl View for AppError {
    type V = AppErrorView;

    open spec fn view(&self) -> AppErrorView {
        match self {
            AppError::InvalidInput(m) => AppErrorView::InvalidInput(m@),
            AppError::NotFound(m) => AppErrorView::NotFound(m@),
            AppError::PermissionDenied(m) => AppErrorView::PermissionDenied(m@),
            AppError::Internal(m) => AppErrorView::Internal(m@),
            AppError::Network(m) => AppErrorView::Network(m@),
            AppError::Api(m) => AppErrorView::Api(m@),
        }
    }
}

impl AppError {
    /// Creates a new invalid input error.
    pub fn invalid_input(msg: &str) -> (e: Self)
        ensures
            e@ == AppErrorView::InvalidInput(msg@),
    {
        AppError::InvalidInput(msg.to_owned())
    }

    /// Creates a new not found error.
    pub fn not_found(msg: &str) -> (e: Self)
        ensures
            e@ == AppErrorView::NotFound(msg@),
    {
        AppError::NotFound(msg.to_owned())
    }

    /// Creates a new permission denied error.
    pub fn permission_denied(msg: &str) -> (e: Self)
        ensures
            e@ == AppErrorView::PermissionDenied(msg@),
    {
        AppError::PermissionDenied(msg.to_owned())
    }

    /// Creates a new internal error.
    pub fn internal(msg: &str) -> (e: Self)
        ensures
            e@ == AppErrorView::Internal(msg@),
    {
        AppError::Internal(msg.to_owned())
    }

    /// Creates a new network error.
    pub fn network(msg: &str) -> (e: Self)
        ensures
            e@ == AppErrorView::Network(msg@),
    {
        AppError::Network(msg.to_owned())
    }

    /// Creates a new API error.
    pub fn api(msg: &str) -> (e: Self)
        ensures
            e@ == AppErrorView::Api(msg@),
    {
        AppError::Api(msg.to_owned())
    }

    /// The error as the user sees it: the kind's label followed by the message.
    pub fn to_string(&self) -> (s: String)
        ensures
            s@ == self@.display(),
    {
        match self {
            AppError::InvalidInput(msg) => join("Invalid input: ", msg.as_str()),
            AppError::NotFound(msg) => join("Not found: ", msg.as_str()),
            AppError::PermissionDenied(msg) => join("Permission denied: ", msg.as_str()),
            AppError::Internal(msg) => join("Internal error: ", msg.as_str()),
            AppError::Network(msg) => join("Network error: ", msg.as_str()),
            AppError::Api(msg) => join("API error: ", msg.as_str()),
        }
    }
}

/// `std::io::Error`: the error of an input or output operation. Nothing is
/// known of what is inside.
#[verifier::external_type_specification]
#[verifier::external_body]
pub struct ExIoError(std::io::Error);

/// `serde_json::Error`: the error of reading or writing JSON. Nothing is
/// known of what is inside.
#[verifier::external_type_specification]
#[verifier::external_body]
pub struct ExJsonError(serde_json::Error);

/// `reqwest::Error`: the error of an HTTP request. Nothing is known of
/// what is inside.
#[verifier::external_type_specification]
#[verifier::external_body]
pub struct ExHttpError(reqwest::Error);

impl From<std::io::Error> for AppError {
    /// An input or output error is an internal error that carries the
    /// error's own text.
    fn from(err: std::io::Error) -> (e: Self)
        ensures
            e matches AppError::Internal(message) && to_string_from_display_ensures::<
                std::io::Error,
            >(&err, message),
    {
        AppError::Internal(err.to_string())
    }
}

impl FromSpecImpl<std::io::Error> for AppError {
    /// The text of the error is not known to the prover: what the
    /// conversion returns is stated on `from` itself.
    open spec fn obeys_from_spec() -> bool {
        false
    }

    open spec fn from_spec(err: std::io::Error) -> AppError {
        arbitrary()
    }
}

impl From<serde_json::Error> for AppError {
    /// A JSON error is an internal error that carries the error's own text.
    fn from(err: serde_json::Error) -> (e: Self)
        ensures
            e matches AppError::Internal(message) && to_string_from_display_ensures::<
                serde_json::Error,
            >(&err, message),
    {
        AppError::Internal(err.to_string())
    }
}

impl FromSpecImpl<serde_json::Error> for AppError {
    /// The text of the error is not known to the prover: what the
    /// conversion returns is stated on `from` itself.
    open spec fn obeys_from_spec() -> bool {
        false
    }

    open spec fn from_spec(err: serde_json::Error) -> AppError {
        arbitrary()
    }
}

impl From<reqwest::Error> for AppError {
    /// An HTTP error is a network error that carries the error's own text.
    fn from(err: reqwest::Error) -> (e: Self)
        ensures
            e matches AppError::Network(message) && to_string_from_display_ensures::<
                reqwest::Error,
            >(&err, message),
    {
        AppError::Network(err.to_string())
    }
}

impl FromSpecImpl<reqwest::Error> for AppError {
    /// The text of the error is not known to the prover: what the
    /// conversion returns is stated on `from` itself.
    open spec fn obeys_from_spec() -> bool {
        false
    }

    open spec fn from_spec(err: reqwest::Error) -> AppError {
        arbitrary()
    }
}

impl Clone for AppError {
    fn clone(&self) -> (e: Self)
        ensures
            e@ == self@,
    {
        match self {
            AppError::InvalidInput(msg) => AppError::InvalidInput(msg.clone()),
            AppError::NotFound(msg) => AppError::NotFound(msg.clone()),
            AppError::PermissionDenied(msg) => AppError::PermissionDenied(msg.clone()),
            AppError::Internal(msg) => AppError::Internal(msg.clone()),
            AppError::Network(msg) => AppError::Network(msg.clone()),
            AppError::Api(msg) => AppError::Api(msg.clone()),
        }
    }
}

} // verus!
