//! The settings data model and the rules that a settings value must keep.

use crate::settings::shortcuts::CustomShortcuts;
use crate::settings::temperature::{denotes_unit_interval, Temperature};
use crate::utils::text::{join, contains, occurs_at, occurs_in, same_text};
use vstd::prelude::*;

verus! {

/// The least window width that is accepted, in pixels.
pub const MIN_WINDOW_WIDTH: u32 = 400;

/// The least window height that is accepted, in pixels.
pub const MIN_WINDOW_HEIGHT: u32 = 300;

// ---------------------------------------------------------------------------
// Theme and startup behaviour
// ---------------------------------------------------------------------------
/// The colour theme of the launcher.
#[derive(Debug, Clone, Copy, PartialEq, Eq, Structural)]
pub enum Theme {
    Light,
    Dark,
    System,
}

/// What the launcher's window does when the program starts.
#[derive(Debug, Clone, Copy, PartialEq, Eq, Structural)]
pub enum StartupBehavior {
    Normal,
    Minimized,
    Hidden,
}

/// The word that stands for a theme in the settings file.
pub open spec fn theme_name(theme: Theme) -> Seq<char> {
    match theme {
        Theme::Light => "light"@,
        Theme::Dark => "dark"@,
        Theme::System => "system"@,
    }
}

/// The theme that a word of the settings file stands for, if any.
pub open spec fn theme_named(name: Seq<char>) -> Option<Theme> {
    if name == "light"@ {
        Some(Theme::Light)
    } else if name == "dark"@ {
        Some(Theme::Dark)
    } else if name == "system"@ {
        Some(Theme::System)
    } else {
        None
    }
}

/// The word that stands for a startup behaviour in the settings file.
pub open spec fn startup_name(behavior: StartupBehavior) -> Seq<char> {
    match behavior {
        StartupBehavior::Normal => "normal"@,
        StartupBehavior::Minimized => "minimized"@,
        StartupBehavior::Hidden => "hidden"@,
    }
}

/// The startup behaviour that a word of the settings file stands for, if any.
pub open spec fn startup_named(name: Seq<char>) -> Option<StartupBehavior> {
    if name == "normal"@ {
        Some(StartupBehavior::Normal)
    } else if name == "minimized"@ {
        Some(StartupBehavior::Minimized)
    } else if name == "hidden"@ {
        Some(StartupBehavior::Hidden)
    } else {
        None
    }
}

/// Every theme is read back from its own word.
pub proof fn lemma_theme_name_round_trip(theme: Theme)
    ensures
        theme_named(theme_name(theme)) == Some(theme),
{
    reveal_strlit("light");
    reveal_strlit("dark");
    reveal_strlit("system");
    assert("dark"@[0] != "light"@[0]);
    assert("system"@[0] != "light"@[0]);
    assert("system"@[0] != "dark"@[0]);
}

/// Every startup behaviour is read back from its own word.
pub proof fn lemma_startup_name_round_trip(behavior: StartupBehavior)
    ensures
        startup_named(startup_name(behavior)) == Some(behavior),
{
    reveal_strlit("normal");
    reveal_strlit("minimized");
    reveal_strlit("hidden");
    assert("minimized"@[0] != "normal"@[0]);
    assert("hidden"@[0] != "normal"@[0]);
    assert("hidden"@[0] != "minimized"@[0]);
}

impl Theme {
    /// The word that stands for the theme in the settings file.
    pub fn as_str(&self) -> (name: &'static str)
        ensures
            name@ == theme_name(*self),
    {
        match self {
            Theme::Light => "light",
            Theme::Dark => "dark",
            Theme::System => "system",
        }
    }

    /// The theme that `name` stands for in the settings file.
    pub fn from_name(name: &str) -> (theme: Option<Theme>)
        ensures
            theme == theme_named(name@),
    {
        if same_text(name, "light") {
            Some(Theme::Light)
        } else if same_text(name, "dark") {
            Some(Theme::Dark)
        } else if same_text(name, "system") {
            Some(Theme::System)
        } else {
            None
        }
    }
}

impl StartupBehavior {
    /// The word that stands for the behaviour in the settings file.
    pub fn as_str(&self) -> (name: &'static str)
        ensures
            name@ == startup_name(*self),
    {
        match self {
            StartupBehavior::Normal => "normal",
            StartupBehavior::Minimized => "minimized",
            StartupBehavior::Hidden => "hidden",
        }
    }

    /// The behaviour that `name` stands for in the settings file.
    pub fn from_name(name: &str) -> (behavior: Option<StartupBehavior>)
        ensures
            behavior == startup_named(name@),
    {
        if same_text(name, "normal") {
            Some(StartupBehavior::Normal)
        } else if same_text(name, "minimized") {
            Some(StartupBehavior::Minimized)
        } else if same_text(name, "hidden") {
            Some(StartupBehavior::Hidden)
        } else {
            None
        }
    }
}

// ---------------------------------------------------------------------------
// Providers
// ---------------------------------------------------------------------------
/// The providers that the launcher knows. Credentials are kept for these
/// and for no other name.
#[derive(Debug, Clone, Copy, PartialEq, Eq, Structural)]
pub enum Provider {
    OpenAI,
    Anthropic,
}

/// The name by which a provider is addressed.
pub open spec fn provider_name(provider: Provider) -> Seq<char> {
    match provider {
        Provider::OpenAI => "openai"@,
        Provider::Anthropic => "anthropic"@,
    }
}

/// The provider that goes by `name`, if there is one.
pub open spec fn provider_named(name: Seq<char>) -> Option<Provider> {
    if name == "openai"@ {
        Some(Provider::OpenAI)
    } else if name == "anthropic"@ {
        Some(Provider::Anthropic)
    } else {
        None
    }
}

/// Whether `name` is the name of a known provider.
pub open spec fn is_known_provider(name: Seq<char>) -> bool {
    name == "openai"@ || name == "anthropic"@
}

/// A name is known exactly if it is the name of one of the providers, and
/// then it is the name of that provider only.
pub proof fn lemma_provider_names(name: Seq<char>)
    ensures
        is_known_provider(name) <==> provider_named(name) is Some,
        provider_named(name) matches Some(p) ==> provider_name(p) == name,
        forall|p: Provider| provider_named(#[trigger] provider_name(p)) == Some(p),
{
    reveal_strlit("openai");
    reveal_strlit("anthropic");
    assert("openai"@[0] != "anthropic"@[0]);
}

impl Provider {
    /// The name by which the provider is addressed.
    pub fn name(&self) -> (name: &'static str)
        ensures
            name@ == provider_name(*self),
    {
        match self {
            Provider::OpenAI => "openai",
            Provider::Anthropic => "anthropic",
        }
    }

    /// The provider that goes by `name`: `None` for every name but the two
    /// that are known.
    pub fn from_name(name: &str) -> (provider: Option<Provider>)
        ensures
            provider == provider_named(name@),
            provider is Some <==> is_known_provider(name@),
    {
        if same_text(name, "openai") {
            Some(Provider::OpenAI)
        } else if same_text(name, "anthropic") {
            Some(Provider::Anthropic)
        } else {
            None
        }
    }
}

// ---------------------------------------------------------------------------
// Keyboard shortcuts
// ---------------------------------------------------------------------------
/// Whether a shortcut string names one of the modifier keys that the
/// launcher recognises.
pub open spec fn has_modifier(shortcut: Seq<char>) -> bool {
    occurs_in("CommandOrControl"@, shortcut) || occurs_in("Alt"@, shortcut)
}

/// The message that reports a shortcut without a modifier.
pub open spec fn shortcut_violation(shortcut: Seq<char>) -> Seq<char> {
    "Invalid shortcut format: "@ + shortcut
}

/// The place of the first binding in `entries` whose shortcut names no
/// modifier, or the length of `entries` if every shortcut names one.
pub open spec fn first_without_modifier(entries: Seq<(Seq<char>, Seq<char>)>) -> int
    decreases entries.len(),
{
    if entries.len() == 0 {
        0
    } else if !has_modifier(entries[0].1) {
        0
    } else {
        1 + first_without_modifier(entries.drop_first())
    }
}

/// What `first_without_modifier` finds: a binding without a modifier, before
/// which every binding has one.
pub proof fn lemma_first_without_modifier(entries: Seq<(Seq<char>, Seq<char>)>)
    ensures
        0 <= first_without_modifier(entries) <= entries.len(),
        first_without_modifier(entries) < entries.len() ==> !has_modifier(
            entries[first_without_modifier(entries)].1,
        ),
        forall|i: int|
            0 <= i < first_without_modifier(entries) ==> has_modifier((#[trigger] entries[i]).1),
    decreases entries.len(),
{
    if entries.len() > 0 && has_modifier(entries[0].1) {
        let rest = entries.drop_first();
        lemma_first_without_modifier(rest);
        assert forall|i: int| 0 <= i < first_without_modifier(entries) implies has_modifier(
            (#[trigger] entries[i]).1,
        ) by {
            if i > 0 {
                assert(entries[i] == rest[i - 1]);
            }
        }
    }
}

/// Whether `shortcut` names a recognised modifier key.
pub fn names_modifier(shortcut: &str) -> (b: bool)
    ensures
        b == has_modifier(shortcut@),
{
    contains(shortcut, "CommandOrControl") || contains(shortcut, "Alt")
}

/// The keyboard shortcuts: three fixed actions and the user's own.
#[derive(Debug, PartialEq, Eq)]
pub struct KeyboardShortcuts {
    pub toggle_window: String,
    pub clear_conversation: String,
    pub new_conversation: String,
    pub custom_shortcuts: CustomShortcuts,
}

/// The keyboard shortcuts as plain text.
pub struct KeyboardShortcutsView {
    pub toggle_window: Seq<char>,
    pub clear_conversation: Seq<char>,
    pub new_conversation: Seq<char>,
    /// The user's bindings, action first, in the order in which the actions
    /// were first bound.
    pub custom_shortcuts: Seq<(Seq<char>, Seq<char>)>,
}

impl KeyboardShortcutsView {
    /// Every shortcut, fixed or user-defined, names a modifier key.
    pub open spec fn is_valid(self) -> bool {
        &&& has_modifier(self.toggle_window)
        &&& has_modifier(self.clear_conversation)
        &&& has_modifier(self.new_conversation)
        &&& forall|i: int|
            0 <= i < self.custom_shortcuts.len() ==> has_modifier(
                (#[trigger] self.custom_shortcuts[i]).1,
            )
    }

    /// The message for the first shortcut that names no modifier: the fixed
    /// actions are looked at first, then the user's in their order.
    pub open spec fn violation(self) -> Seq<char> {
        if !has_modifier(self.toggle_window) {
            shortcut_violation(self.toggle_window)
        } else if !has_modifier(self.clear_conversation) {
            shortcut_violation(self.clear_conversation)
        } else if !has_modifier(self.new_conversation) {
            shortcut_violation(self.new_conversation)
        } else {
            shortcut_violation(
                self.custom_shortcuts[first_without_modifier(self.custom_shortcuts)].1,
            )
        }
    }

    /// The shortcuts that a fresh installation starts with.
    pub open spec fn initial() -> KeyboardShortcutsView {
        KeyboardShortcutsView {
            toggle_window: "CommandOrControl+Shift+Space"@,
            clear_conversation: "CommandOrControl+L"@,
            new_conversation: "CommandOrControl+N"@,
            custom_shortcuts: seq![("settings"@, "CommandOrControl+,"@)],
        }
    }
}

impl View for KeyboardShortcuts {
    type V = KeyboardShortcutsView;

    open spec fn view(&self) -> KeyboardShortcutsView {
        KeyboardShortcutsView {
            toggle_window: self.toggle_window@,
            clear_conversation: self.clear_conversation@,
            new_conversation: self.new_conversation@,
            custom_shortcuts: self.custom_shortcuts@,
        }
    }
}

impl Clone for KeyboardShortcuts {
    fn clone(&self) -> (c: Self)
        ensures
            c@ == self@,
    {
        KeyboardShortcuts {
            toggle_window: self.toggle_window.clone(),
            clear_conversation: self.clear_conversation.clone(),
            new_conversation: self.new_conversation.clone(),
            custom_shortcuts: self.custom_shortcuts.clone(),
        }
    }
}

impl Default for KeyboardShortcuts {
    fn default() -> (k: Self)
        ensures
            k@ == KeyboardShortcutsView::initial(),
    {
        let mut custom_shortcuts = CustomShortcuts::new();
        custom_shortcuts.insert("settings".to_owned(), "CommandOrControl+,".to_owned());
        assert(custom_shortcuts@ =~= seq![("settings"@, "CommandOrControl+,"@)]);
        KeyboardShortcuts {
            toggle_window: "CommandOrControl+Shift+Space".to_owned(),
            clear_conversation: "CommandOrControl+L".to_owned(),
            new_conversation: "CommandOrControl+N".to_owned(),
            custom_shortcuts,
        }
    }
}

// ---------------------------------------------------------------------------
// Preferences
// ---------------------------------------------------------------------------
/// The preferences of the launcher's window.
#[derive(Debug, PartialEq, Eq)]
pub struct AppPreferences {
    pub window_width: u32,
    pub window_height: u32,
    pub theme: Theme,
    pub startup_behavior: StartupBehavior,
    pub keyboard_shortcuts: KeyboardShortcuts,
}

/// The preferences as plain values.
pub struct AppPreferencesView {
    pub window_width: nat,
    pub window_height: nat,
    pub theme: Theme,
    pub startup_behavior: StartupBehavior,
    pub keyboard_shortcuts: KeyboardShortcutsView,
}

impl AppPreferencesView {
    /// The window is at least 400 by 300 pixels and every shortcut is valid.
    pub open spec fn is_valid(self) -> bool {
        &&& self.window_width >= 400
        &&& self.window_height >= 300
        &&& self.keyboard_shortcuts.is_valid()
    }

    /// The message for the first rule that is broken: width, then height,
    /// then the shortcuts.
    pub open spec fn violation(self) -> Seq<char> {
        if self.window_width < 400 {
            "Window width must be at least 400 pixels"@
        } else if self.window_height < 300 {
            "Window height must be at least 300 pixels"@
        } else {
            self.keyboard_shortcuts.violation()
        }
    }

    /// The preferences that a fresh installation starts with.
    pub open spec fn initial() -> AppPreferencesView {
        AppPreferencesView {
            window_width: 800,
            window_height: 600,
            theme: Theme::System,
            startup_behavior: StartupBehavior::Normal,
            keyboard_shortcuts: KeyboardShortcutsView::initial(),
        }
    }
}

impl View for AppPreferences {
    type V = AppPreferencesView;

    open spec fn view(&self) -> AppPreferencesView {
        AppPreferencesView {
            window_width: self.window_width as nat,
            window_height: self.window_height as nat,
            theme: self.theme,
            startup_behavior: self.startup_behavior,
            keyboard_shortcuts: self.keyboard_shortcuts@,
        }
    }
}

impl Clone for AppPreferences {
    fn clone(&self) -> (c: Self)
        ensures
            c@ == self@,
    {
        AppPreferences {
            window_width: self.window_width,
            window_height: self.window_height,
            theme: self.theme,
            startup_behavior: self.startup_behavior,
            keyboard_shortcuts: self.keyboard_shortcuts.clone(),
        }
    }
}

impl Default for AppPreferences {
    fn default() -> (p: Self)
        ensures
            p@ == AppPreferencesView::initial(),
    {
        AppPreferences {
            window_width: 800,
            window_height: 600,
            theme: Theme::System,
            startup_behavior: StartupBehavior::Normal,
            keyboard_shortcuts: KeyboardShortcuts::default(),
        }
    }
}

// ---------------------------------------------------------------------------
// Provider configuration
// ---------------------------------------------------------------------------
/// The configuration of one provider as plain values.
pub struct ProviderConfigView {
    pub model: Seq<char>,
    /// The bit pattern of the temperature.
    pub temperature: u32,
    pub max_tokens: nat,
}

/// The configuration of the OpenAI provider.
#[derive(Debug, PartialEq, Eq)]
pub struct OpenAIConfig {
    pub model: String,
    pub temperature: Temperature,
    pub max_tokens: u32,
}

/// The configuration of the Anthropic provider.
#[derive(Debug, PartialEq, Eq)]
pub struct AnthropicConfig {
    pub model: String,
    pub temperature: Temperature,
    pub max_tokens: u32,
}

impl View for OpenAIConfig {
    type V = ProviderConfigView;

    open spec fn view(&self) -> ProviderConfigView {
        ProviderConfigView {
            model: self.model@,
            temperature: self.temperature@,
            max_tokens: self.max_tokens as nat,
        }
    }
}

impl View for AnthropicConfig {
    type V = ProviderConfigView;

    open spec fn view(&self) -> ProviderConfigView {
        ProviderConfigView {
            model: self.model@,
            temperature: self.temperature@,
            max_tokens: self.max_tokens as nat,
        }
    }
}

impl Clone for OpenAIConfig {
    fn clone(&self) -> (c: Self)
        ensures
            c@ == self@,
    {
        OpenAIConfig {
            model: self.model.clone(),
            temperature: self.temperature,
            max_tokens: self.max_tokens,
        }
    }
}

impl Clone for AnthropicConfig {
    fn clone(&self) -> (c: Self)
        ensures
            c@ == self@,
    {
        AnthropicConfig {
            model: self.model.clone(),
            temperature: self.temperature,
            max_tokens: self.max_tokens,
        }
    }
}

/// The configuration of each provider. A provider that is not configured
/// is `None`: it is never left out.
#[derive(Debug, PartialEq, Eq)]
pub struct AIProviderSettings {
    pub openai: Option<OpenAIConfig>,
    pub anthropic: Option<AnthropicConfig>,
}

/// The provider configurations as plain values.
pub struct AIProviderSettingsView {
    pub openai: Option<ProviderConfigView>,
    pub anthropic: Option<ProviderConfigView>,
}

impl AIProviderSettingsView {
    /// The temperature of every configured provider lies between zero and one.
    pub open spec fn is_valid(self) -> bool {
        &&& self.openai matches Some(c) ==> denotes_unit_interval(c.temperature)
        &&& self.anthropic matches Some(c) ==> denotes_unit_interval(c.temperature)
    }

    /// The message for the first provider whose temperature is out of range.
    pub open spec fn violation(self) -> Seq<char> {
        if self.openai matches Some(c) && !denotes_unit_interval(c.temperature) {
            "OpenAI temperature must be between 0 and 1"@
        } else {
            "Anthropic temperature must be between 0 and 1"@
        }
    }

    /// No provider is configured.
    pub open spec fn initial() -> AIProviderSettingsView {
        AIProviderSettingsView { openai: None, anthropic: None }
    }
}

impl View for AIProviderSettings {
    type V = AIProviderSettingsView;

    open spec fn view(&self) -> AIProviderSettingsView {
        AIProviderSettingsView {
            openai: match self.openai {
                Some(c) => Some(c@),
                None => None,
            },
            anthropic: match self.anthropic {
                Some(c) => Some(c@),
                None => None,
            },
        }
    }
}

impl Clone for AIProviderSettings {
    fn clone(&self) -> (c: Self)
        ensures
            c@ == self@,
    {
        AIProviderSettings {
            openai: match &self.openai {
                Some(c) => Some(c.clone()),
                None => None,
            },
            anthropic: match &self.anthropic {
                Some(c) => Some(c.clone()),
                None => None,
            },
        }
    }
}

impl Default for AIProviderSettings {
    fn default() -> (s: Self)
        ensures
            s@ == AIProviderSettingsView::initial(),
    {
        AIProviderSettings { openai: None, anthropic: None }
    }
}

// ---------------------------------------------------------------------------
// Settings
// ---------------------------------------------------------------------------
/// Everything the user can configure: the unit that is validated, kept in
/// memory and written to the settings file.
#[derive(Debug, PartialEq, Eq)]
pub struct Settings {
    pub preferences: AppPreferences,
    pub ai_providers: AIProviderSettings,
}

/// A settings value as plain values.
pub struct SettingsView {
    pub preferences: AppPreferencesView,
    pub ai_providers: AIProviderSettingsView,
}

impl SettingsView {
    /// Every rule holds: those of the preferences and those of the providers.
    pub open spec fn is_valid(self) -> bool {
        self.preferences.is_valid() && self.ai_providers.is_valid()
    }

    /// The message for the first rule that is broken: the preferences are
    /// looked at before the providers.
    pub open spec fn violation(self) -> Seq<char> {
        if !self.preferences.is_valid() {
            self.preferences.violation()
        } else {
            self.ai_providers.violation()
        }
    }

    /// The settings that a fresh installation starts with.
    pub open spec fn initial() -> SettingsView {
        SettingsView {
            preferences: AppPreferencesView::initial(),
            ai_providers: AIProviderSettingsView::initial(),
        }
    }
}

impl View for Settings {
    type V = SettingsView;

    open spec fn view(&self) -> SettingsView {
        SettingsView { preferences: self.preferences@, ai_providers: self.ai_providers@ }
    }
}

impl Clone for Settings {
    fn clone(&self) -> (c: Self)
        ensures
            c@ == self@,
    {
        Settings {
            preferences: self.preferences.clone(),
            ai_providers: self.ai_providers.clone(),
        }
    }
}

impl Default for Settings {
    fn default() -> (s: Self)
        ensures
            s@ == SettingsView::initial(),
    {
        Settings {
            preferences: AppPreferences::default(),
            ai_providers: AIProviderSettings::default(),
        }
    }
}

/// The settings of a fresh installation keep every rule.
pub proof fn lemma_initial_settings_are_valid()
    ensures
        SettingsView::initial().is_valid(),
{
    reveal_strlit("CommandOrControl");
    reveal_strlit("CommandOrControl+Shift+Space");
    reveal_strlit("CommandOrControl+L");
    reveal_strlit("CommandOrControl+N");
    reveal_strlit("CommandOrControl+,");
    let needle = "CommandOrControl"@;
    assert("CommandOrControl+Shift+Space"@.subrange(0, 16) =~= needle);
    assert(occurs_at(needle, "CommandOrControl+Shift+Space"@, 0));
    assert("CommandOrControl+L"@.subrange(0, 16) =~= needle);
    assert(occurs_at(needle, "CommandOrControl+L"@, 0));
    assert("CommandOrControl+N"@.subrange(0, 16) =~= needle);
    assert(occurs_at(needle, "CommandOrControl+N"@, 0));
    assert("CommandOrControl+,"@.subrange(0, 16) =~= needle);
    assert(occurs_at(needle, "CommandOrControl+,"@, 0));
}

// ---------------------------------------------------------------------------
// Validation
// ---------------------------------------------------------------------------
/// Values that can be held against their rules.
pub trait Validate {
    /// Whether the value keeps every rule.
    spec fn is_valid(&self) -> bool;

    /// The message that names the first rule the value breaks. It has a
    /// meaning only for a value that is not valid.
    spec fn violation(&self) -> Seq<char>;

    /// Checks the value against its rules and reports the first that is broken.
    fn validate(&self) -> (r: Result<(), String>)
        ensures
            r is Ok <==> self.is_valid(),
            r matches Err(message) ==> message@ == self.violation(),
    ;
}

impl Validate for KeyboardShortcuts {
    open spec fn is_valid(&self) -> bool {
        self@.is_valid()
    }

    open spec fn violation(&self) -> Seq<char> {
        self@.violation()
    }

    fn validate(&self) -> (r: Result<(), String>) {
        if !names_modifier(self.toggle_window.as_str()) {
            return Err(join("Invalid shortcut format: ", self.toggle_window.as_str()));
        }
        if !names_modifier(self.clear_conversation.as_str()) {
            return Err(join("Invalid shortcut format: ", self.clear_conversation.as_str()));
        }
        if !names_modifier(self.new_conversation.as_str()) {
            return Err(join("Invalid shortcut format: ", self.new_conversation.as_str()));
        }
        let count = self.custom_shortcuts.len();
        let ghost entries = self.custom_shortcuts@;
        let mut i: usize = 0;
        while i < count
            invariant
                i <= count,
                count == entries.len(),
                entries == self.custom_shortcuts@,
                has_modifier(self.toggle_window@),
                has_modifier(self.clear_conversation@),
                has_modifier(self.new_conversation@),
                forall|k: int| 0 <= k < i ==> has_modifier((#[trigger] entries[k]).1),
            decreases count - i,
        {
            match self.custom_shortcuts.entry(i) {
                Some(binding) => {
                    if !names_modifier(binding.shortcut.as_str()) {
                        proof {
                            lemma_first_without_modifier(entries);
                            let first = first_without_modifier(entries);
                            assert(!has_modifier(entries[i as int].1));
                            if first > i {
                                assert(has_modifier(entries[i as int].1));
                            }
                            if first < i {
                                assert(has_modifier(entries[first].1));
                            }
                            assert(!has_modifier(self@.custom_shortcuts[i as int].1));
                        }
                        return Err(join("Invalid shortcut format: ", binding.shortcut.as_str()));
                    }
                },
                None => {},
            }
            i += 1;
        }
        Ok(())
    }
}

impl Validate for AppPreferences {
    open spec fn is_valid(&self) -> bool {
        self@.is_valid()
    }

    open spec fn violation(&self) -> Seq<char> {
        self@.violation()
    }

    fn validate(&self) -> (r: Result<(), String>) {
        if self.window_width < MIN_WINDOW_WIDTH {
            return Err("Window width must be at least 400 pixels".to_owned());
        }
        if self.window_height < MIN_WINDOW_HEIGHT {
            return Err("Window height must be at least 300 pixels".to_owned());
        }
        self.keyboard_shortcuts.validate()
    }
}

impl Validate for AIProviderSettings {
    open spec fn is_valid(&self) -> bool {
        self@.is_valid()
    }

    open spec fn violation(&self) -> Seq<char> {
        self@.violation()
    }

    fn validate(&self) -> (r: Result<(), String>) {
        if let Some(openai) = &self.openai {
            if !openai.temperature.in_unit_interval() {
                return Err("OpenAI temperature must be between 0 and 1".to_owned());
            }
        }
        if let Some(anthropic) = &self.anthropic {
            if !anthropic.temperature.in_unit_interval() {
                return Err("Anthropic temperature must be between 0 and 1".to_owned());
            }
        }
        Ok(())
    }
}

impl Validate for Settings {
    open spec fn is_valid(&self) -> bool {
        self@.is_valid()
    }

    open spec fn violation(&self) -> Seq<char> {
        self@.violation()
    }

    fn validate(&self) -> (r: Result<(), String>) {
        match self.preferences.validate() {
            Ok(()) => self.ai_providers.validate(),
            Err(message) => Err(message),
        }
    }
}

} // verus!
