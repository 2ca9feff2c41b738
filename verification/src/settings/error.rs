//! Errors of the settings store and of the credential vault.

use crate::utils::text::join;
use vstd::prelude::*;

verus! {

/// Error types for settings operations.
///
/// The variants that report a failure of the platform carry the platform's
/// own words; the others carry what the caller needs to name the input that
/// was refused.
#[derive(Debug, PartialEq, Eq)]
pub enum SettingsError {
    /// The platform names no configuration directory.
    ConfigDirNotFound,
    /// The file system refused to create, read, write or rename.
    Io(String),
    /// The settings file is not a settings document, or the settings could
    /// not be written as one.
    Json(String),
    /// The secret store refused access or failed.
    Keyring(String),
    /// No credential is stored for the provider that was asked for.
    NotFound(String),
    /// A settings value breaks a rule, or a provider name is not recognised.
    InvalidInput(String),
}

/// What a [`SettingsError`] says: its kind and the text it carries.
pub enum SettingsErrorView {
    ConfigDirNotFound,
    Io(Seq<char>),
    Json(Seq<char>),
    Keyring(Seq<char>),
    NotFound(Seq<char>),
    InvalidInput(Seq<char>),
}

impl SettingsErrorView {
    /// The error as one line of text.
    pub open spec fn display(self) -> Seq<char> {
        match self {
            SettingsErrorView::ConfigDirNotFound => "Failed to access config directory"@,
            SettingsErrorView::Io(m) => "IO error: "@ + m,
            SettingsErrorView::Json(m) => "JSON serialization error: "@ + m,
            SettingsErrorView::Keyring(m) => "Keyring error: "@ + m,
            SettingsErrorView::NotFound(provider) => "No credential stored for provider: "@
                + provider,
            SettingsErrorView::InvalidInput(m) => "Invalid input: "@ + m,
        }
    }
}

impl View for SettingsError {
    type V = SettingsErrorView;

    open spec fn view(&self) -> SettingsErrorView {
        match self {
            SettingsError::ConfigDirNotFound => SettingsErrorView::ConfigDirNotFound,
            SettingsError::Io(m) => SettingsErrorView::Io(m@),
            SettingsError::Json(m) => SettingsErrorView::Json(m@),
            SettingsError::Keyring(m) => SettingsErrorView::Keyring(m@),
            SettingsError::NotFound(provider) => SettingsErrorView::NotFound(provider@),
            SettingsError::InvalidInput(m) => SettingsErrorView::InvalidInput(m@),
        }
    }
}

impl SettingsError {
    /// The error as the user sees it.
    pub fn to_string(&self) -> (s: String)
        ensures
            s@ == self@.display(),
    {
        match self {
            SettingsError::ConfigDirNotFound => "Failed to access config directory".to_owned(),
            SettingsError::Io(msg) => join("IO error: ", msg.as_str()),
            SettingsError::Json(msg) => join("JSON serialization error: ", msg.as_str()),
            SettingsError::Keyring(msg) => join("Keyring error: ", msg.as_str()),
            SettingsError::NotFound(provider) => join(
                "No credential stored for provider: ",
                provider.as_str(),
            ),
            SettingsError::InvalidInput(msg) => join("Invalid input: ", msg.as_str()),
        }
    }
}

impl Clone for SettingsError {
    fn clone(&self) -> (e: Self)
        ensures
            e@ == self@,
    {
        match self {
            SettingsError::ConfigDirNotFound => SettingsError::ConfigDirNotFound,
            SettingsError::Io(msg) => SettingsError::Io(msg.clone()),
            SettingsError::Json(msg) => SettingsError::Json(msg.clone()),
            SettingsError::Keyring(msg) => SettingsError::Keyring(msg.clone()),
            SettingsError::NotFound(provider) => SettingsError::NotFound(provider.clone()),
            SettingsError::InvalidInput(msg) => SettingsError::InvalidInput(msg.clone()),
        }
    }
}

} // verus!
