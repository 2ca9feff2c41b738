//! The settings store.
//!
//! [`SettingsManager`] owns the settings that are in force. It does no
//! input or output of its own. Opening the store and saving it are
//! conversations: the store hands out a request, the caller carries it out
//! and hands back how it went, and the store decides what comes next. The
//! caller keeps the manager behind a lock; a save is driven to its end
//! while the lock is held for writing, so that saves never overlap.
//!
//! Opening goes through [`PrepareRequest`], [`ReadRequest`] and, if there
//! is a settings file, [`DecodeRequest`]. Saving goes through
//! [`EncodeRequest`] and [`SaveTask`]. The requests that reach the file
//! system are those of [`load_ops`] and [`save_ops`], in their order, so
//! the laws proved of these hold of every open and every save.

use crate::settings::disk::{load_ops, save_ops, FileOp, StoreFile};
use crate::settings::error::{SettingsError, SettingsErrorView};
use crate::settings::types::{is_known_provider, Settings, SettingsView};
use crate::settings::vault;
use crate::settings::vault::unknown_provider_message;
use vstd::prelude::*;

verus! {

/// The owner of the settings that are in force.
#[derive(Debug)]
pub struct SettingsManager {
    settings: Settings,
    config_dir: String,
}

/// The first request of opening the store: make sure that the store's
/// directory exists.
#[derive(Debug)]
pub struct PrepareRequest {
    config_dir: String,
}

/// The second request of opening the store: read the settings file, if
/// there is one.
#[derive(Debug)]
pub struct ReadRequest {
    config_dir: String,
}

/// The last request of opening a store that has a settings file: turn the
/// file's text into a settings value.
#[derive(Debug)]
pub struct DecodeRequest {
    config_dir: String,
    text: String,
}

/// How reading the settings file ended.
#[derive(Debug)]
pub enum Loaded {
    /// There is no settings file. The store is open, with the settings of a
    /// fresh installation; nothing has been written.
    Ready(SettingsManager),
    /// There is a settings file, and its text is to be decoded.
    Decode(DecodeRequest),
}

/// The first request of a save: turn a settings value into text.
#[derive(Debug)]
pub struct EncodeRequest {
    settings: Settings,
}

/// How far a save has come on the file system.
#[derive(Debug, Clone, Copy, PartialEq, Eq, Structural)]
pub enum SaveStage {
    /// The text is to be written to the sibling file.
    WriteTemp,
    /// The sibling file is to take the settings file's place.
    Promote,
}

/// A save that is under way: the text, and what is to be done with it next.
#[derive(Debug)]
pub struct SaveTask {
    text: String,
    stage: SaveStage,
}

/// What a save does next.
#[derive(Debug)]
pub enum SaveStep {
    /// Carry out the task's request and report how it went.
    Continue(SaveTask),
    /// The save is complete: the settings file holds the new text.
    Done,
    /// The save has failed and is given up. The settings file still holds a
    /// whole settings text: the one it held before the save began, unless
    /// the failure came from the rename after the rename had taken place.
    Failed(SettingsError),
}

impl PrepareRequest {
    /// The configuration directory under which the store is being opened.
    pub closed spec fn directory(&self) -> Seq<char> {
        self.config_dir@
    }

    /// The configuration directory under which the store is being opened.
    pub fn config_dir(&self) -> (dir: &str)
        ensures
            dir@ == self.directory(),
    {
        self.config_dir.as_str()
    }

    /// What is to be done now: the first request of a load.
    pub fn action(&self) -> (op: FileOp)
        ensures
            op@ == load_ops()[0],
    {
        FileOp::CreateDirectory
    }

    /// Takes the outcome of creating the directory. A failure ends the
    /// opening with an I/O error that carries the failure's message;
    /// otherwise the settings file is to be read.
    pub fn prepared(self, outcome: Result<(), String>) -> (r: Result<ReadRequest, SettingsError>)
        ensures
            outcome matches Err(message) ==> (r matches Err(e) && e@ == SettingsErrorView::Io(
                message@,
            )),
            outcome is Ok ==> (r matches Ok(next) && next.directory() == self.directory()),
    {
        match outcome {
            Ok(()) => Ok(ReadRequest { config_dir: self.config_dir }),
            Err(message) => Err(SettingsError::Io(message)),
        }
    }
}

impl ReadRequest {
    /// The configuration directory under which the store is being opened.
    pub closed spec fn directory(&self) -> Seq<char> {
        self.config_dir@
    }

    /// The configuration directory under which the store is being opened.
    pub fn config_dir(&self) -> (dir: &str)
        ensures
            dir@ == self.directory(),
    {
        self.config_dir.as_str()
    }

    /// What is to be done now: the second request of a load.
    pub fn action(&self) -> (op: FileOp)
        ensures
            op@ == load_ops()[1],
    {
        FileOp::Read(StoreFile::Settings)
    }

    /// Takes the outcome of reading the settings file: its text, `None` if
    /// there is no such file, or the message of a failure.
    ///
    /// A failure ends the opening with an I/O error. Without a file the
    /// store is open at once, with the settings of a fresh installation,
    /// and nothing is written. With a file, its text is to be decoded.
    pub fn loaded(self, outcome: Result<Option<String>, String>) -> (r: Result<
        Loaded,
        SettingsError,
    >)
        ensures
            outcome matches Err(message) ==> (r matches Err(e) && e@ == SettingsErrorView::Io(
                message@,
            )),
            outcome matches Ok(None) ==> (r matches Ok(Loaded::Ready(manager)) && manager.current()
                == SettingsView::initial() && manager.directory() == self.directory()),
            outcome matches Ok(Some(text)) ==> (r matches Ok(Loaded::Decode(next)) && next.text()
                == text@ && next.directory() == self.directory()),
    {
        match outcome {
            Err(message) => Err(SettingsError::Io(message)),
            Ok(None) => Ok(
                Loaded::Ready(
                    SettingsManager { settings: Settings::default(), config_dir: self.config_dir },
                ),
            ),
            Ok(Some(text)) => Ok(
                Loaded::Decode(DecodeRequest { config_dir: self.config_dir, text }),
            ),
        }
    }
}

impl DecodeRequest {
    /// The configuration directory under which the store is being opened.
    pub closed spec fn directory(&self) -> Seq<char> {
        self.config_dir@
    }

    /// The text of the settings file.
    pub closed spec fn text(&self) -> Seq<char> {
        self.text@
    }

    /// The text that is to be decoded.
    pub fn content(&self) -> (text: &str)
        ensures
            text@ == self.text(),
    {
        self.text.as_str()
    }

    /// Takes the outcome of decoding the text: the settings it stands for,
    /// or the message of the decoder.
    ///
    /// Text that is no settings document ends the opening with a
    /// serialisation error: the store never falls back to other settings.
    pub fn decoded(self, outcome: Result<Settings, String>) -> (r: Result<
        SettingsManager,
        SettingsError,
    >)
        ensures
            outcome matches Err(message) ==> (r matches Err(e) && e@ == SettingsErrorView::Json(
                message@,
            )),
            outcome matches Ok(settings) ==> (r matches Ok(manager) && manager.current()
                == settings@ && manager.directory() == self.directory()),
    {
        match outcome {
            Ok(settings) => Ok(SettingsManager { settings, config_dir: self.config_dir }),
            Err(message) => Err(SettingsError::Json(message)),
        }
    }
}

impl EncodeRequest {
    /// The settings that are being saved.
    pub closed spec fn value(&self) -> SettingsView {
        self.settings@
    }

    /// The settings that are to be encoded.
    pub fn settings(&self) -> (settings: &Settings)
        ensures
            settings@ == self.value(),
    {
        &self.settings
    }

    /// Takes the outcome of encoding the settings: the text, or the
    /// message of the encoder.
    ///
    /// A failure ends the save with a serialisation error before anything
    /// is written. Otherwise the save begins on the file system, with the
    /// first request of [`save_ops`].
    pub fn encoded(self, outcome: Result<String, String>) -> (step: SaveStep)
        ensures
            outcome matches Err(message) ==> (step matches SaveStep::Failed(e) && e@
                == SettingsErrorView::Json(message@)),
            outcome matches Ok(text) ==> (step matches SaveStep::Continue(task) && task.text()
                == text@ && task.completed() == 0),
    {
        match outcome {
            Ok(text) => SaveStep::Continue(SaveTask { text, stage: SaveStage::WriteTemp }),
            Err(message) => SaveStep::Failed(SettingsError::Json(message)),
        }
    }
}

impl SaveTask {
    /// The text that is being saved.
    pub closed spec fn text(&self) -> Seq<char> {
        self.text@
    }

    /// How many of the requests of the save have been carried out: none or one.
    pub closed spec fn completed(&self) -> nat {
        match self.stage {
            SaveStage::WriteTemp => 0,
            SaveStage::Promote => 1,
        }
    }

    /// Whether the text has been written and the rename is what remains.
    pub fn stage(&self) -> (stage: SaveStage)
        ensures
            stage is WriteTemp <==> self.completed() == 0,
            stage is Promote <==> self.completed() == 1,
    {
        self.stage
    }

    /// What is to be done now: the next request of [`save_ops`] for the
    /// task's text.
    pub fn action(&self) -> (op: FileOp)
        ensures
            self.completed() < save_ops(self.text()).len(),
            op@ == save_ops(self.text())[self.completed() as int],
    {
        match self.stage {
            SaveStage::WriteTemp => FileOp::Write {
                file: StoreFile::Temp,
                content: self.text.clone(),
            },
            SaveStage::Promote => FileOp::Rename { from: StoreFile::Temp, to: StoreFile::Settings },
        }
    }

    /// Takes the outcome of the task's request.
    ///
    /// A failure ends the save with an I/O error that carries the failure's
    /// message, and nothing more is asked for: after a failed write there is
    /// no rename. After the write comes the rename; after the rename the
    /// save is done.
    pub fn advance(self, outcome: Result<(), String>) -> (step: SaveStep)
        ensures
            outcome matches Err(message) ==> (step matches SaveStep::Failed(e) && e@
                == SettingsErrorView::Io(message@)),
            outcome is Ok && self.completed() + 1 < save_ops(self.text()).len() ==> (
            step matches SaveStep::Continue(next) && next.text() == self.text() && next.completed()
                == self.completed() + 1),
            outcome is Ok && self.completed() + 1 == save_ops(self.text()).len() ==> step is Done,
    {
        match outcome {
            Err(message) => SaveStep::Failed(SettingsError::Io(message)),
            Ok(()) => match self.stage {
                SaveStage::WriteTemp => SaveStep::Continue(
                    SaveTask { text: self.text, stage: SaveStage::Promote },
                ),
                SaveStage::Promote => SaveStep::Done,
            },
        }
    }
}

impl SettingsManager {
    /// The settings that are in force.
    pub closed spec fn current(&self) -> SettingsView {
        self.settings@
    }

    /// The configuration directory under which the store lives.
    pub closed spec fn directory(&self) -> Seq<char> {
        self.config_dir@
    }

    /// Begins to open the store under the configuration directory that the
    /// platform names, if it names one.
    ///
    /// Without a configuration directory there is no store, and nothing is
    /// asked of the file system.
    pub fn new(config_dir: Option<String>) -> (r: Result<PrepareRequest, SettingsError>)
        ensures
            config_dir is None ==> (r matches Err(e) && e@
                == SettingsErrorView::ConfigDirNotFound),
            config_dir matches Some(dir) ==> (r matches Ok(request) && request.directory()
                == dir@),
    {
        match config_dir {
            Some(dir) => Ok(PrepareRequest { config_dir: dir }),
            None => Err(SettingsError::ConfigDirNotFound),
        }
    }

    /// The configuration directory under which the store lives.
    pub fn config_dir(&self) -> (dir: &str)
        ensures
            dir@ == self.directory(),
    {
        self.config_dir.as_str()
    }

    /// A copy of the settings that are in force. It is made from memory
    /// alone and always succeeds.
    pub fn get_settings(&self) -> (r: Result<Settings, SettingsError>)
        ensures
            r matches Ok(settings) && settings@ == self.current(),
    {
        Ok(self.settings.clone())
    }

    /// Begins a save of the settings that are in force.
    pub fn save(&self) -> (request: EncodeRequest)
        ensures
            request.value() == self.current(),
    {
        EncodeRequest { settings: self.settings.clone() }
    }

    /// Puts `new_settings` in force, whole, and begins to save them.
    ///
    /// The new settings are in force from this call on, whether or not the
    /// save succeeds: a failed save is reported by the save, and the caller
    /// may save again without handing the settings in anew.
    pub fn update_settings(&mut self, new_settings: Settings) -> (request: EncodeRequest)
        ensures
            final(self).current() == new_settings@,
            final(self).directory() == old(self).directory(),
            request.value() == new_settings@,
    {
        let request = EncodeRequest { settings: new_settings.clone() };
        self.settings = new_settings;
        request
    }

    /// Stores `key` as the credential of `provider` in the secret store of
    /// the platform. The settings are not touched.
    ///
    /// A provider that is not on the allow-list is turned away with
    /// `InvalidInput` and the secret store is not asked; a refusal of the
    /// secret store is a vault error.
    pub fn store_api_key(&self, provider: &str, key: &str) -> (r: Result<(), SettingsError>)
        ensures
            !is_known_provider(provider@) ==> (r matches Err(e) && e@
                == SettingsErrorView::InvalidInput(unknown_provider_message(provider@))),
            is_known_provider(provider@) ==> (r matches Err(e) ==> e@ is Keyring),
    {
        vault::store(provider, key)
    }

    /// Reads the credential of `provider` from the secret store of the
    /// platform.
    ///
    /// A provider that is not on the allow-list is turned away with
    /// `InvalidInput` and the secret store is not asked. Where no
    /// credential is stored the result is `NotFound`; another refusal of
    /// the secret store is a vault error.
    pub fn get_api_key(&self, provider: &str) -> (r: Result<String, SettingsError>)
        ensures
            !is_known_provider(provider@) ==> (r matches Err(e) && e@
                == SettingsErrorView::InvalidInput(unknown_provider_message(provider@))),
            is_known_provider(provider@) ==> (r matches Err(e) ==> e@
                == SettingsErrorView::NotFound(provider@) || e@ is Keyring),
    {
        vault::get(provider)
    }

    /// Removes the credential of `provider` from the secret store of the
    /// platform.
    ///
    /// A provider that is not on the allow-list is turned away with
    /// `InvalidInput` and the secret store is not asked. Where no
    /// credential is stored the result is `NotFound`; another refusal of
    /// the secret store is a vault error.
    pub fn delete_api_key(&self, provider: &str) -> (r: Result<(), SettingsError>)
        ensures
            !is_known_provider(provider@) ==> (r matches Err(e) && e@
                == SettingsErrorView::InvalidInput(unknown_provider_message(provider@))),
            is_known_provider(provider@) ==> (r matches Err(e) ==> e@
                == SettingsErrorView::NotFound(provider@) || e@ is Keyring),
    {
        vault::delete(provider)
    }
}

} // verus!
