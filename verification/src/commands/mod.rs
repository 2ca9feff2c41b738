//! The command layer: what the user interface may ask of the launcher, and
//! the errors it gets back.

pub mod settings;
pub mod window;

pub use settings::{delete_api_key, get_api_key, get_settings, store_api_key, update_settings};

use crate::settings::error::{SettingsError, SettingsErrorView};
use crate::utils::error::{AppError, AppErrorView};
use crate::utils::text::join;
use vstd::prelude::*;
use vstd::std_specs::convert::FromSpecImpl;

verus! {

/// Error type for command handlers.
#[derive(Debug, PartialEq, Eq)]
pub enum CommandError {
    /// A window could not be moved, shown or created.
    Window(String),
    /// The settings could not be read or written, or the secret store failed.
    Settings(String),
    /// Something failed that is not the caller's fault.
    Internal(String),
    /// The caller's input was refused.
    InvalidInput(String),
    /// What the caller asked for does not exist.
    NotFound(String),
}

/// Result type alias for command handlers.
pub type CommandResult<T> = Result<T, CommandError>;

/// What a [`CommandError`] says: its kind and the text of its message.
pub enum CommandErrorView {
    Window(Seq<char>),
    Settings(Seq<char>),
    Internal(Seq<char>),
    InvalidInput(Seq<char>),
    NotFound(Seq<char>),
}

impl CommandErrorView {
    /// The error as one line of text.
    pub open spec fn display(self) -> Seq<char> {
        match self {
            CommandErrorView::Window(m) => "Window operation failed: "@ + m,
            CommandErrorView::Settings(m) => "Settings operation failed: "@ + m,
            CommandErrorView::Internal(m) => "Internal error: "@ + m,
            CommandErrorView::InvalidInput(m) => "Invalid input: "@ + m,
            CommandErrorView::NotFound(m) => "Not found: "@ + m,
        }
    }

    /// The command error for an application error: invalid input and
    /// internal errors keep their kind and message, every other kind
    /// becomes an internal error that carries the error's whole text.
    pub open spec fn of_app_error(error: AppErrorView) -> CommandErrorView {
        match error {
            AppErrorView::InvalidInput(m) => CommandErrorView::InvalidInput(m),
            AppErrorView::Internal(m) => CommandErrorView::Internal(m),
            _ => CommandErrorView::Internal(error.display()),
        }
    }

    /// The command error for an error of the settings store or of the
    /// vault: refused input stays refused input with its message, a missing
    /// credential is reported as not found, and every failure of the
    /// platform is a settings error. The last two carry the error's whole
    /// text.
    pub open spec fn of_settings_error(error: SettingsErrorView) -> CommandErrorView {
        match error {
            SettingsErrorView::InvalidInput(m) => CommandErrorView::InvalidInput(m),
            SettingsErrorView::NotFound(_) => CommandErrorView::NotFound(error.display()),
            _ => CommandErrorView::Settings(error.display()),
        }
    }
}

impl View for CommandError {
    type V = CommandErrorView;

    open spec fn view(&self) -> CommandErrorView {
        match self {
            CommandError::Window(m) => CommandErrorView::Window(m@),
            CommandError::Settings(m) => CommandErrorView::Settings(m@),
            CommandError::Internal(m) => CommandErrorView::Internal(m@),
            CommandError::InvalidInput(m) => CommandErrorView::InvalidInput(m@),
            CommandError::NotFound(m) => CommandErrorView::NotFound(m@),
        }
    }
}

impl CommandError {
    /// The error as the user sees it.
    pub fn to_string(&self) -> (s: String)
        ensures
            s@ == self@.display(),
    {
        match self {
            CommandError::Window(msg) => join("Window operation failed: ", msg.as_str()),
            CommandError::Settings(msg) => join("Settings operation failed: ", msg.as_str()),
            CommandError::Internal(msg) => join("Internal error: ", msg.as_str()),
            CommandError::InvalidInput(msg) => join("Invalid input: ", msg.as_str()),
            CommandError::NotFound(msg) => join("Not found: ", msg.as_str()),
        }
    }
}

impl Clone for CommandError {
    fn clone(&self) -> (e: Self)
        ensures
            e@ == self@,
    {
        match self {
            CommandError::Window(msg) => CommandError::Window(msg.clone()),
            CommandError::Settings(msg) => CommandError::Settings(msg.clone()),
            CommandError::Internal(msg) => CommandError::Internal(msg.clone()),
            CommandError::InvalidInput(msg) => CommandError::InvalidInput(msg.clone()),
            CommandError::NotFound(msg) => CommandError::NotFound(msg.clone()),
        }
    }
}

impl From<AppError> for CommandError {
    fn from(error: AppError) -> (r: CommandError)
        ensures
            r@ == CommandErrorView::of_app_error(error@),
    {
        match error {
            AppError::InvalidInput(msg) => CommandError::InvalidInput(msg),
            AppError::Internal(msg) => CommandError::Internal(msg),
            other => CommandError::Internal(other.to_string()),
        }
    }
}

impl FromSpecImpl<AppError> for CommandError {
    /// The conversion builds new text, which is known by its characters
    /// only: what it returns is stated on `from` itself, over the views.
    open spec fn obeys_from_spec() -> bool {
        false
    }

    open spec fn from_spec(error: AppError) -> CommandError {
        arbitrary()
    }
}

impl From<SettingsError> for CommandError {
    fn from(error: SettingsError) -> (r: CommandError)
        ensures
            r@ == CommandErrorView::of_settings_error(error@),
    {
        match error {
            SettingsError::InvalidInput(msg) => CommandError::InvalidInput(msg),
            SettingsError::NotFound(provider) => {
                let missing = SettingsError::NotFound(provider);
                CommandError::NotFound(missing.to_string())
            },
            other => CommandError::Settings(other.to_string()),
        }
    }
}

impl FromSpecImpl<SettingsError> for CommandError {
    /// The conversion builds new text, which is known by its characters
    /// only: what it returns is stated on `from` itself, over the views.
    open spec fn obeys_from_spec() -> bool {
        false
    }

    open spec fn from_spec(error: SettingsError) -> CommandError {
        arbitrary()
    }
}

} // verus!
