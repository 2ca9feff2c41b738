//! Settings management commands: reading and replacing the settings, and
//! keeping the providers' API keys.
//!
//! The commands add nothing of their own to what the store and the vault
//! decide. They hold a candidate against the rules before it reaches the
//! store, and they put every error into the terms of the command layer.

use crate::commands::{CommandError, CommandErrorView, CommandResult};
use crate::settings::error::SettingsErrorView;
use crate::settings::manager::{EncodeRequest, SettingsManager};
use crate::settings::types::{is_known_provider, Settings, Validate};
use crate::settings::vault::unknown_provider_message;
use vstd::prelude::*;

verus! {

/// Retrieves the current application settings.
pub fn get_settings(settings_manager: &SettingsManager) -> (r: CommandResult<Settings>)
    ensures
        r matches Ok(settings) && settings@ == settings_manager.current(),
{
    match settings_manager.get_settings() {
        Ok(settings) => Ok(settings),
        Err(e) => Err(CommandError::from(e)),
    }
}

/// Updates the application settings.
///
/// The candidate is validated first. One that breaks a rule is refused
/// with `InvalidInput` and the message of the first broken rule; the
/// settings in force stay as they are and no save begins. A valid
/// candidate is put in force and the request that begins its save is
/// returned.
pub fn update_settings(settings: Settings, settings_manager: &mut SettingsManager) -> (r:
    CommandResult<EncodeRequest>)
    ensures
        !settings@.is_valid() ==> (r matches Err(e) && e@ == CommandErrorView::InvalidInput(
            settings@.violation(),
        )),
        !settings@.is_valid() ==> final(settings_manager).current() == old(settings_manager).current(),
        settings@.is_valid() ==> (r matches Ok(request) && request.value() == settings@),
        settings@.is_valid() ==> final(settings_manager).current() == settings@,
        final(settings_manager).directory() == old(settings_manager).directory(),
{
    match settings.validate() {
        Err(message) => Err(CommandError::InvalidInput(message)),
        Ok(()) => Ok(settings_manager.update_settings(settings)),
    }
}

/// Stores an API key for a specific provider.
///
/// The result is that of the vault, in the terms of the command layer: a
/// provider that is not on the allow-list is `InvalidInput`, a refusal of
/// the secret store is a settings error.
pub fn store_api_key(provider: String, key: String, settings_manager: &SettingsManager) -> (r:
    CommandResult<()>)
    ensures
        !is_known_provider(provider@) ==> (r matches Err(e) && e@
            == CommandErrorView::InvalidInput(unknown_provider_message(provider@))),
        is_known_provider(provider@) ==> (r matches Err(e) ==> e@ is Settings),
{
    match settings_manager.store_api_key(provider.as_str(), key.as_str()) {
        Ok(()) => Ok(()),
        Err(e) => Err(CommandError::from(e)),
    }
}

/// Retrieves an API key for a specific provider.
///
/// The result is that of the vault, in the terms of the command layer: a
/// provider that is not on the allow-list is `InvalidInput`, a provider
/// without a stored key is `NotFound`, another refusal of the secret store
/// is a settings error.
pub fn get_api_key(provider: String, settings_manager: &SettingsManager) -> (r: CommandResult<
    String,
>)
    ensures
        !is_known_provider(provider@) ==> (r matches Err(e) && e@
            == CommandErrorView::InvalidInput(unknown_provider_message(provider@))),
        is_known_provider(provider@) ==> (r matches Err(e) ==> e@ == CommandErrorView::NotFound(
            SettingsErrorView::NotFound(provider@).display(),
        ) || e@ is Settings),
{
    match settings_manager.get_api_key(provider.as_str()) {
        Ok(key) => Ok(key),
        Err(e) => Err(CommandError::from(e)),
    }
}

/// Deletes an API key for a specific provider.
///
/// The result is that of the vault, in the terms of the command layer: a
/// provider that is not on the allow-list is `InvalidInput`, a provider
/// without a stored key is `NotFound`, another refusal of the secret store
/// is a settings error.
pub fn delete_api_key(provider: String, settings_manager: &SettingsManager) -> (r: CommandResult<
    (),
>)
    ensures
        !is_known_provider(provider@) ==> (r matches Err(e) && e@
            == CommandErrorView::InvalidInput(unknown_provider_message(provider@))),
        is_known_provider(provider@) ==> (r matches Err(e) ==> e@ == CommandErrorView::NotFound(
            SettingsErrorView::NotFound(provider@).display(),
        ) || e@ is Settings),
{
    match settings_manager.delete_api_key(provider.as_str()) {
        Ok(()) => Ok(()),
        Err(e) => Err(CommandError::from(e)),
    }
}

} // verus!
