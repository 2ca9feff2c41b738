//! Settings: the data model, its validation, the store and the credential vault.

pub mod disk;
pub mod error;
pub mod manager;
pub mod shortcuts;
pub mod temperature;
pub mod types;
pub mod vault;

pub use disk::{FileOp, StoreFile};
pub use error::SettingsError;
pub use manager::{
    DecodeRequest, EncodeRequest, Loaded, PrepareRequest, ReadRequest, SaveStage, SaveStep,
    SaveTask, SettingsManager,
};
pub use shortcuts::{CustomShortcut, CustomShortcuts};
pub use temperature::Temperature;
pub use types::{
    AIProviderSettings, AnthropicConfig, AppPreferences, KeyboardShortcuts, OpenAIConfig, Provider,
    Settings, StartupBehavior, Theme, Validate,
};
