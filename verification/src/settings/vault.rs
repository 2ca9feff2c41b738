//! The credential vault: one secret per provider, kept in the secret store
//! of the platform and nowhere else.
//!
//! A credential is addressed by the service name of this program and the
//! name of the provider. Only the providers of the allow-list have a
//! credential; every other name is turned away before the secret store is
//! asked anything. No function here takes or returns a settings value, and
//! none keeps a secret beyond its own call.
//!
//! The functions that ask the secret store take a [`Provider`], and there
//! is a `Provider` for the names of the allow-list only: a name that is
//! turned away never reaches them.
//!
//! What the secret store answers cannot be known in advance. The functions
//! [`stored`], [`fetched`] and [`deleted`] say what each answer means;
//! [`store`], [`get`] and [`delete`] ask the secret store and hand its
//! answer to them.

use crate::settings::error::{SettingsError, SettingsErrorView};
use crate::settings::types::{is_known_provider, provider_name, provider_named, Provider};
use crate::utils::text::join;
use vstd::prelude::*;
use vstd::string::to_string_from_display_ensures;

verus! {

// ---------------------------------------------------------------------------
// The secret store of the platform
// ---------------------------------------------------------------------------
/// `keyring::Entry`: the handle by which one credential of the secret
/// store is addressed. Nothing is known of what is inside.
#[verifier::external_type_specification]
#[verifier::external_body]
pub struct ExEntry(keyring::Entry);

/// `keyring::Error`: what the secret store reports when it refuses.
/// Nothing is known of what is inside.
#[verifier::external_type_specification]
#[verifier::external_body]
pub struct ExKeyringError(keyring::Error);

/// `keyring::Entry::new` builds the handle for a service and a user name.
/// Nothing is claimed of its result.
pub assume_specification[ keyring::Entry::new ](service: &str, user: &str) -> (r: keyring::Result<
    keyring::Entry,
>)
;

/// `keyring::Entry::set_password` writes or replaces the secret of the
/// entry. Nothing is claimed of its result.
pub assume_specification[ keyring::Entry::set_password ](
    entry: &keyring::Entry,
    password: &str,
) -> (r: keyring::Result<()>)
;

/// `keyring::Entry::get_password` reads the secret of the entry. Nothing is
/// claimed of its result.
pub assume_specification[ keyring::Entry::get_password ](entry: &keyring::Entry) -> (r:
    keyring::Result<String>)
;

/// `keyring::Entry::delete_password` removes the secret of the entry.
/// Nothing is claimed of its result.
pub assume_specification[ keyring::Entry::delete_password ](entry: &keyring::Entry) -> (r:
    keyring::Result<()>)
;

/// Tells `keyring::Error::NoEntry`, by which the secret store says that it
/// holds no credential for the entry, from the other variants of
/// `keyring::Error`. Nothing is claimed of the answer.
#[verifier::external_body]
fn is_no_entry(error: &keyring::Error) -> (missing: bool) {
    matches!(error, keyring::Error::NoEntry)
}

// ---------------------------------------------------------------------------
// Answers of the secret store
// ---------------------------------------------------------------------------
/// What the secret store said when it refused a request.
#[derive(Debug, PartialEq, Eq)]
pub struct VaultFailure {
    /// The secret store holds no credential for the entry.
    pub missing: bool,
    /// The secret store's own words.
    pub message: String,
}

/// A refusal as plain values.
pub struct VaultFailureView {
    pub missing: bool,
    pub message: Seq<char>,
}

impl View for VaultFailure {
    type V = VaultFailureView;

    open spec fn view(&self) -> VaultFailureView {
        VaultFailureView { missing: self.missing, message: self.message@ }
    }
}

/// The service name under which every credential of this program is kept.
pub fn service_name() -> (name: &'static str)
    ensures
        name@ == "synapse"@,
{
    "synapse"
}

/// The message that turns away a name that is not on the allow-list.
pub open spec fn unknown_provider_message(name: Seq<char>) -> Seq<char> {
    "Invalid provider: "@ + name
}

/// What a refusal means for a request to read or to delete: that there is
/// no credential for the provider, if that is what the secret store said,
/// and a vault error otherwise.
pub open spec fn refusal_spec(provider: Provider, failure: VaultFailureView) -> SettingsErrorView {
    if failure.missing {
        SettingsErrorView::NotFound(provider_name(provider))
    } else {
        SettingsErrorView::Keyring(failure.message)
    }
}

/// The provider that `name` stands for, or the error that turns the name away.
pub fn known_provider(name: &str) -> (r: Result<Provider, SettingsError>)
    ensures
        is_known_provider(name@) ==> r == Ok::<Provider, SettingsError>(
            provider_named(name@)->Some_0,
        ),
        !is_known_provider(name@) ==> (r matches Err(e) && e@ == SettingsErrorView::InvalidInput(
            unknown_provider_message(name@),
        )),
{
    match Provider::from_name(name) {
        Some(provider) => Ok(provider),
        None => Err(SettingsError::InvalidInput(join("Invalid provider: ", name))),
    }
}

/// Whether `message` is what some error of the secret store says of
/// itself when it is displayed.
spec fn is_store_message(message: Seq<char>) -> bool {
    exists|error: keyring::Error, text: String|
        #[trigger] to_string_from_display_ensures::<keyring::Error>(&error, text) && text@
            == message
}

/// What the secret store's refusal says, as plain values: the message is
/// the text that the error displays. Whether the refusal means that no
/// credential is there is for the secret store to say.
fn failure_of(error: keyring::Error) -> (failure: VaultFailure)
    ensures
        to_string_from_display_ensures::<keyring::Error>(&error, failure.message),
        is_store_message(failure@.message),
{
    let missing = is_no_entry(&error);
    VaultFailure { missing, message: error.to_string() }
}

/// The error for a refused request to read or to delete.
fn refusal(provider: Provider, failure: VaultFailure) -> (e: SettingsError)
    ensures
        e@ == refusal_spec(provider, failure@),
{
    if failure.missing {
        SettingsError::NotFound(provider.name().to_owned())
    } else {
        SettingsError::Keyring(failure.message)
    }
}

/// Says what the secret store's answer to a request to store means.
pub fn stored(answer: Result<(), VaultFailure>) -> (r: Result<(), SettingsError>)
    ensures
        answer is Ok <==> r is Ok,
        answer matches Err(failure) ==> (r matches Err(e) && e@ == SettingsErrorView::Keyring(
            failure.message@,
        )),
{
    match answer {
        Ok(()) => Ok(()),
        Err(failure) => Err(SettingsError::Keyring(failure.message)),
    }
}

/// Says what the secret store's answer to a request to read means. The
/// secret is handed on as it came. Where there is none, the result is
/// `NotFound` with the provider's name: never an empty secret.
pub fn fetched(provider: Provider, answer: Result<String, VaultFailure>) -> (r: Result<
    String,
    SettingsError,
>)
    ensures
        answer matches Ok(secret) ==> (r matches Ok(s) && s@ == secret@),
        answer matches Err(failure) ==> (r matches Err(e) && e@ == refusal_spec(
            provider,
            failure@,
        )),
{
    match answer {
        Ok(secret) => Ok(secret),
        Err(failure) => Err(refusal(provider, failure)),
    }
}

/// Says what the secret store's answer to a request to delete means. Where
/// there was nothing to delete, the result is `NotFound` with the
/// provider's name.
pub fn deleted(provider: Provider, answer: Result<(), VaultFailure>) -> (r: Result<
    (),
    SettingsError,
>)
    ensures
        answer is Ok <==> r is Ok,
        answer matches Err(failure) ==> (r matches Err(e) && e@ == refusal_spec(
            provider,
            failure@,
        )),
{
    match answer {
        Ok(()) => Ok(()),
        Err(failure) => Err(refusal(provider, failure)),
    }
}

/// Asks the secret store for the entry of `provider`. Whether there is
/// one is for the secret store to say; a refusal carries its own words.
fn entry_for(provider: Provider) -> (r: Result<keyring::Entry, VaultFailure>)
    ensures
        r matches Err(failure) ==> is_store_message(failure@.message),
{
    match keyring::Entry::new(service_name(), provider.name()) {
        Ok(entry) => Ok(entry),
        Err(error) => Err(failure_of(error)),
    }
}

/// Asks the secret store to keep `secret` for `provider`. Whether it does
/// is for the secret store to say; a refusal carries its own words.
fn ask_store(provider: Provider, secret: &str) -> (answer: Result<(), VaultFailure>)
    ensures
        answer matches Err(failure) ==> is_store_message(failure@.message),
{
    let entry = match entry_for(provider) {
        Ok(entry) => entry,
        Err(failure) => { return Err(failure); },
    };
    match entry.set_password(secret) {
        Ok(()) => Ok(()),
        Err(error) => Err(failure_of(error)),
    }
}

/// Asks the secret store for the secret of `provider`. What it answers is
/// for the secret store to say; a refusal carries its own words.
fn ask_get(provider: Provider) -> (answer: Result<String, VaultFailure>)
    ensures
        answer matches Err(failure) ==> is_store_message(failure@.message),
{
    let entry = match entry_for(provider) {
        Ok(entry) => entry,
        Err(failure) => { return Err(failure); },
    };
    match entry.get_password() {
        Ok(secret) => Ok(secret),
        Err(error) => Err(failure_of(error)),
    }
}

/// Asks the secret store to forget the secret of `provider`. Whether it
/// does is for the secret store to say; a refusal carries its own words.
fn ask_delete(provider: Provider) -> (answer: Result<(), VaultFailure>)
    ensures
        answer matches Err(failure) ==> is_store_message(failure@.message),
{
    let entry = match entry_for(provider) {
        Ok(entry) => entry,
        Err(failure) => { return Err(failure); },
    };
    match entry.delete_password() {
        Ok(()) => Ok(()),
        Err(error) => Err(failure_of(error)),
    }
}

/// Stores `secret` as the credential of `provider`, replacing the one
/// that is there.
///
/// A name that is not on the allow-list is turned away with `InvalidInput`
/// and the secret store is not asked. Otherwise the result is what
/// [`stored`] makes of the secret store's answer: success, or a vault error.
pub fn store(provider: &str, secret: &str) -> (r: Result<(), SettingsError>)
    ensures
        !is_known_provider(provider@) ==> (r matches Err(e) && e@
            == SettingsErrorView::InvalidInput(unknown_provider_message(provider@))),
        is_known_provider(provider@) ==> (r matches Err(e) ==> e@ is Keyring),
{
    match known_provider(provider) {
        Err(e) => Err(e),
        Ok(known) => stored(ask_store(known, secret)),
    }
}

/// Reads the credential of `provider`.
///
/// A name that is not on the allow-list is turned away with `InvalidInput`
/// and the secret store is not asked. Otherwise the result is what
/// [`fetched`] makes of the secret store's answer: the secret, `NotFound`
/// with the provider's name where none is stored, or a vault error.
pub fn get(provider: &str) -> (r: Result<String, SettingsError>)
    ensures
        !is_known_provider(provider@) ==> (r matches Err(e) && e@
            == SettingsErrorView::InvalidInput(unknown_provider_message(provider@))),
        is_known_provider(provider@) ==> (r matches Err(e) ==> e@ == SettingsErrorView::NotFound(
            provider@,
        ) || e@ is Keyring),
{
    proof {
        crate::settings::types::lemma_provider_names(provider@);
    }
    match known_provider(provider) {
        Err(e) => Err(e),
        Ok(known) => fetched(known, ask_get(known)),
    }
}

/// Removes the credential of `provider`.
///
/// A name that is not on the allow-list is turned away with `InvalidInput`
/// and the secret store is not asked. Otherwise the result is what
/// [`deleted`] makes of the secret store's answer: success, `NotFound`
/// with the provider's name where none is stored, or a vault error.
pub fn delete(provider: &str) -> (r: Result<(), SettingsError>)
    ensures
        !is_known_provider(provider@) ==> (r matches Err(e) && e@
            == SettingsErrorView::InvalidInput(unknown_provider_message(provider@))),
        is_known_provider(provider@) ==> (r matches Err(e) ==> e@ == SettingsErrorView::NotFound(
            provider@,
        ) || e@ is Keyring),
{
    proof {
        crate::settings::types::lemma_provider_names(provider@);
    }
    match known_provider(provider) {
        Err(e) => Err(e),
        Ok(known) => deleted(known, ask_delete(known)),
    }
}

} // verus!
