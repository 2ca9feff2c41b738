use synapse_lib::commands;
use synapse_lib::commands::CommandError;
use synapse_lib::settings::disk::app_dir_name;
use serde_json::Value;
use synapse_lib::settings::{
    AIProviderSettings, AnthropicConfig, AppPreferences, CustomShortcuts, FileOp,
    KeyboardShortcuts, Loaded, OpenAIConfig, SaveStage, SaveStep, Settings, SettingsError,
    SettingsManager, StartupBehavior, StoreFile, Temperature, Theme,
};

/// The two files of a store, kept in memory.
struct FakeDisk {
    settings: Option<String>,
    temp: Option<String>,
    log: Vec<FileOp>,
}

impl FakeDisk {
    fn empty() -> FakeDisk {
        FakeDisk { settings: None, temp: None, log: Vec::new() }
    }

    fn holding(text: &str) -> FakeDisk {
        FakeDisk { settings: Some(text.to_string()), temp: None, log: Vec::new() }
    }

    fn slot(&mut self, file: StoreFile) -> &mut Option<String> {
        match file {
            StoreFile::Settings => &mut self.settings,
            StoreFile::Temp => &mut self.temp,
        }
    }

    fn perform(&mut self, op: FileOp) -> Result<Option<String>, String> {
        let answer = match &op {
            FileOp::CreateDirectory => Ok(None),
            FileOp::Read(file) => Ok(self.slot(*file).clone()),
            FileOp::Write { file, content } => {
                *self.slot(*file) = Some(content.clone());
                Ok(None)
            }
            FileOp::Rename { from, to } => match self.slot(*from).take() {
                Some(text) => {
                    *self.slot(*to) = Some(text);
                    Ok(None)
                }
                None => Err("No such file or directory".to_string()),
            },
        };
        self.log.push(op);
        answer
    }
}

/// The settings file's format, written out by hand over `serde_json`'s
/// values: the field names and the lower-case words of the two enums.
struct Codec;

fn provider_json(model: &str, temperature: Temperature, max_tokens: u32) -> Value {
    let mut config = serde_json::Map::new();
    config.insert("model".to_string(), Value::from(model));
    config.insert(
        "temperature".to_string(),
        Value::from(f64::from(f32::from_bits(temperature.to_bits()))),
    );
    config.insert("max_tokens".to_string(), Value::from(max_tokens));
    Value::Object(config)
}

fn field<'a>(object: &'a Value, name: &str) -> Result<&'a Value, String> {
    object.get(name).ok_or(format!("missing field `{name}`"))
}

fn text_field(object: &Value, name: &str) -> Result<String, String> {
    match field(object, name)?.as_str() {
        Some(text) => Ok(text.to_string()),
        None => Err(format!("invalid type: field `{name}` is not a string")),
    }
}

fn number_field(object: &Value, name: &str) -> Result<u32, String> {
    match field(object, name)?.as_u64() {
        Some(number) if number <= u64::from(u32::MAX) => Ok(number as u32),
        _ => Err(format!("invalid value: field `{name}` is not a u32")),
    }
}

fn provider_fields(config: &Value) -> Result<(String, Temperature, u32), String> {
    let temperature = match field(config, "temperature")?.as_f64() {
        Some(number) => Temperature::from_bits((number as f32).to_bits()),
        None => return Err("invalid type: field `temperature` is not a number".to_string()),
    };
    Ok((text_field(config, "model")?, temperature, number_field(config, "max_tokens")?))
}

impl Codec {
    fn new() -> Codec {
        Codec
    }

    fn encode(&self, settings: &Settings) -> Result<String, String> {
        let shortcuts = &settings.preferences.keyboard_shortcuts;
        let mut custom = serde_json::Map::new();
        let mut index = 0;
        while let Some(binding) = shortcuts.custom_shortcuts.entry(index) {
            custom.insert(binding.action.clone(), Value::from(binding.shortcut.clone()));
            index += 1;
        }
        let mut keyboard = serde_json::Map::new();
        keyboard.insert("toggle_window".to_string(), Value::from(shortcuts.toggle_window.clone()));
        keyboard.insert(
            "clear_conversation".to_string(),
            Value::from(shortcuts.clear_conversation.clone()),
        );
        keyboard.insert(
            "new_conversation".to_string(),
            Value::from(shortcuts.new_conversation.clone()),
        );
        keyboard.insert("custom_shortcuts".to_string(), Value::Object(custom));

        let mut preferences = serde_json::Map::new();
        preferences.insert("window_width".to_string(), Value::from(settings.preferences.window_width));
        preferences
            .insert("window_height".to_string(), Value::from(settings.preferences.window_height));
        preferences.insert("theme".to_string(), Value::from(settings.preferences.theme.as_str()));
        preferences.insert(
            "startup_behavior".to_string(),
            Value::from(settings.preferences.startup_behavior.as_str()),
        );
        preferences.insert("keyboard_shortcuts".to_string(), Value::Object(keyboard));

        let mut providers = serde_json::Map::new();
        providers.insert(
            "openai".to_string(),
            match &settings.ai_providers.openai {
                Some(c) => provider_json(&c.model, c.temperature, c.max_tokens),
                None => Value::Null,
            },
        );
        providers.insert(
            "anthropic".to_string(),
            match &settings.ai_providers.anthropic {
                Some(c) => provider_json(&c.model, c.temperature, c.max_tokens),
                None => Value::Null,
            },
        );

        let mut root = serde_json::Map::new();
        root.insert("preferences".to_string(), Value::Object(preferences));
        root.insert("ai_providers".to_string(), Value::Object(providers));
        serde_json::to_string_pretty(&Value::Object(root)).map_err(|e| e.to_string())
    }

    fn decode(&self, text: &str) -> Result<Settings, String> {
        let root: Value = serde_json::from_str(text).map_err(|e| e.to_string())?;
        let preferences = field(&root, "preferences")?;
        let keyboard = field(preferences, "keyboard_shortcuts")?;
        let mut custom_shortcuts = CustomShortcuts::new();
        match field(keyboard, "custom_shortcuts")?.as_object() {
            Some(custom) => {
                for (action, shortcut) in custom {
                    match shortcut.as_str() {
                        Some(shortcut) => custom_shortcuts.insert(action.clone(), shortcut.to_string()),
                        None => return Err("invalid type: a shortcut is not a string".to_string()),
                    };
                }
            }
            None => return Err("invalid type: field `custom_shortcuts` is not a map".to_string()),
        }
        let theme = text_field(preferences, "theme")?;
        let startup = text_field(preferences, "startup_behavior")?;
        let providers = field(&root, "ai_providers")?;
        let openai = field(providers, "openai")?;
        let anthropic = field(providers, "anthropic")?;
        Ok(Settings {
            preferences: AppPreferences {
                window_width: number_field(preferences, "window_width")?,
                window_height: number_field(preferences, "window_height")?,
                theme: Theme::from_name(&theme).ok_or(format!("unknown variant `{theme}`"))?,
                startup_behavior: StartupBehavior::from_name(&startup)
                    .ok_or(format!("unknown variant `{startup}`"))?,
                keyboard_shortcuts: KeyboardShortcuts {
                    toggle_window: text_field(keyboard, "toggle_window")?,
                    clear_conversation: text_field(keyboard, "clear_conversation")?,
                    new_conversation: text_field(keyboard, "new_conversation")?,
                    custom_shortcuts,
                },
            },
            ai_providers: AIProviderSettings {
                openai: if openai.is_null() {
                    None
                } else {
                    let (model, temperature, max_tokens) = provider_fields(openai)?;
                    Some(OpenAIConfig { model, temperature, max_tokens })
                },
                anthropic: if anthropic.is_null() {
                    None
                } else {
                    let (model, temperature, max_tokens) = provider_fields(anthropic)?;
                    Some(AnthropicConfig { model, temperature, max_tokens })
                },
            },
        })
    }
}

fn text_of(settings: &Settings) -> String {
    Codec::new().encode(settings).unwrap()
}

fn open(disk: &mut FakeDisk, codec: &Codec) -> Result<SettingsManager, SettingsError> {
    let prepare = SettingsManager::new(Some("/home/user/.config".to_string()))?;
    let outcome = disk.perform(prepare.action()).map(|_| ());
    let read = prepare.prepared(outcome)?;
    let outcome = disk.perform(read.action());
    match read.loaded(outcome)? {
        Loaded::Ready(manager) => Ok(manager),
        Loaded::Decode(request) => {
            let decoded = codec.decode(request.content());
            request.decoded(decoded)
        }
    }
}

fn drive(mut step: SaveStep, disk: &mut FakeDisk) -> Result<(), SettingsError> {
    loop {
        match step {
            SaveStep::Continue(task) => {
                let outcome = disk.perform(task.action()).map(|_| ());
                step = task.advance(outcome);
            }
            SaveStep::Done => return Ok(()),
            SaveStep::Failed(error) => return Err(error),
        }
    }
}

fn update(
    manager: &mut SettingsManager,
    settings: Settings,
    disk: &mut FakeDisk,
    codec: &Codec,
) -> Result<(), SettingsError> {
    let request = manager.update_settings(settings);
    let encoded = codec.encode(request.settings());
    drive(request.encoded(encoded), disk)
}

fn wide(width: u32) -> Settings {
    let mut settings = Settings::default();
    settings.preferences.window_width = width;
    settings
}

#[test]
fn test_settings_crud() {
    let mut disk = FakeDisk::empty();
    let codec = Codec::new();
    let mut manager = open(&mut disk, &codec).unwrap();

    let settings = manager.get_settings().unwrap();
    assert_eq!(settings.preferences.window_width, 800);

    let mut new_settings = settings.clone();
    new_settings.preferences.window_width = 1000;
    update(&mut manager, new_settings.clone(), &mut disk, &codec).unwrap();

    let updated_settings = manager.get_settings().unwrap();
    assert_eq!(updated_settings.preferences.window_width, 1000);
}

#[test]
fn the_store_lives_in_its_own_directory_and_names_two_files() {
    assert_eq!(app_dir_name(), "synapse");
    assert_eq!(StoreFile::Settings.file_name(), "settings.json");
    assert_eq!(StoreFile::Temp.file_name(), "settings.tmp");
}

#[test]
fn without_a_configuration_directory_there_is_no_store() {
    assert_eq!(SettingsManager::new(None).err(), Some(SettingsError::ConfigDirNotFound));
}

#[test]
fn opening_asks_for_the_directory_then_reads_the_settings_file() {
    let prepare = SettingsManager::new(Some("/cfg".to_string())).unwrap();
    assert_eq!(prepare.config_dir(), "/cfg");
    assert_eq!(prepare.action(), FileOp::CreateDirectory);
    let read = prepare.prepared(Ok(())).unwrap();
    assert_eq!(read.config_dir(), "/cfg");
    assert_eq!(read.action(), FileOp::Read(StoreFile::Settings));
}

#[test]
fn a_directory_that_cannot_be_created_is_an_io_error() {
    let prepare = SettingsManager::new(Some("/cfg".to_string())).unwrap();
    let result = prepare.prepared(Err("Permission denied (os error 13)".to_string()));
    assert_eq!(
        result.err(),
        Some(SettingsError::Io("Permission denied (os error 13)".to_string()))
    );
}

#[test]
fn a_file_that_cannot_be_read_is_an_io_error() {
    let read = SettingsManager::new(Some("/cfg".to_string())).unwrap().prepared(Ok(())).unwrap();
    let result = read.loaded(Err("Is a directory (os error 21)".to_string()));
    assert_eq!(
        result.err(),
        Some(SettingsError::Io("Is a directory (os error 21)".to_string()))
    );
}

#[test]
fn without_a_file_the_defaults_are_in_force_and_nothing_is_written() {
    let mut disk = FakeDisk::empty();
    let codec = Codec::new();
    let manager = open(&mut disk, &codec).unwrap();
    assert_eq!(manager.get_settings().unwrap(), Settings::default());
    assert_eq!(manager.config_dir(), "/home/user/.config");
    assert_eq!(disk.settings, None);
    assert_eq!(disk.temp, None);
    assert_eq!(disk.log, vec![FileOp::CreateDirectory, FileOp::Read(StoreFile::Settings)]);
}

#[test]
fn a_corrupt_file_is_a_serialization_error_and_not_the_defaults() {
    let mut disk = FakeDisk::holding("{ not json");
    let codec = Codec::new();
    let result = open(&mut disk, &codec);
    assert_eq!(
        result.err(),
        Some(SettingsError::Json("key must be a string at line 1 column 3".to_string()))
    );
    assert_eq!(disk.settings, Some("{ not json".to_string()));
}

#[test]
fn the_text_of_the_file_is_what_is_decoded() {
    let read = SettingsManager::new(Some("/cfg".to_string())).unwrap().prepared(Ok(())).unwrap();
    match read.loaded(Ok(Some("the text".to_string()))).unwrap() {
        Loaded::Decode(request) => {
            assert_eq!(request.content(), "the text");
            let manager = request.decoded(Ok(wide(1234))).unwrap();
            assert_eq!(manager.get_settings().unwrap(), wide(1234));
            assert_eq!(manager.config_dir(), "/cfg");
        }
        Loaded::Ready(_) => panic!("a file was found"),
    }
}

#[test]
fn save_writes_the_sibling_first_and_then_renames_it() {
    let mut disk = FakeDisk::holding("old");
    let codec = Codec::new();
    let mut manager = wide_manager(800);
    update(&mut manager, wide(900), &mut disk, &codec).unwrap();
    let text = text_of(&wide(900));
    assert_eq!(
        disk.log,
        vec![
            FileOp::Write { file: StoreFile::Temp, content: text.clone() },
            FileOp::Rename { from: StoreFile::Temp, to: StoreFile::Settings },
        ]
    );
    assert_eq!(disk.settings, Some(text));
    assert_eq!(disk.temp, None);
}

#[test]
fn save_steps_follow_the_stage() {
    let manager = match SettingsManager::new(Some("/cfg".to_string()))
        .unwrap()
        .prepared(Ok(()))
        .unwrap()
        .loaded(Ok(None))
        .unwrap()
    {
        Loaded::Ready(manager) => manager,
        Loaded::Decode(_) => panic!("no file was found"),
    };
    let request = manager.save();
    assert_eq!(request.settings(), &Settings::default());
    let task = match request.encoded(Ok("text".to_string())) {
        SaveStep::Continue(task) => task,
        other => panic!("unexpected step {other:?}"),
    };
    assert_eq!(task.stage(), SaveStage::WriteTemp);
    assert_eq!(
        task.action(),
        FileOp::Write { file: StoreFile::Temp, content: "text".to_string() }
    );
    let task = match task.advance(Ok(())) {
        SaveStep::Continue(task) => task,
        other => panic!("unexpected step {other:?}"),
    };
    assert_eq!(task.stage(), SaveStage::Promote);
    assert_eq!(
        task.action(),
        FileOp::Rename { from: StoreFile::Temp, to: StoreFile::Settings }
    );
    assert!(matches!(task.advance(Ok(())), SaveStep::Done));
}

#[test]
fn an_encoder_failure_is_a_serialization_error_before_any_write() {
    let mut disk = FakeDisk::holding("old");
    let manager = SettingsManager::new(Some("/cfg".to_string()))
        .unwrap()
        .prepared(Ok(()))
        .unwrap()
        .loaded(Ok(Some("old".to_string())))
        .unwrap();
    let manager = match manager {
        Loaded::Decode(request) => request.decoded(Ok(Settings::default())).unwrap(),
        Loaded::Ready(_) => panic!("a file was found"),
    };
    let step = manager.save().encoded(Err("key must be a string".to_string()));
    let result = drive(step, &mut disk);
    assert_eq!(result, Err(SettingsError::Json("key must be a string".to_string())));
    assert!(disk.log.is_empty());
    assert_eq!(disk.settings, Some("old".to_string()));
}

#[test]
fn a_failed_write_is_an_io_error_and_no_rename_follows() {
    let task = match wide_manager(800).save().encoded(Ok("new".to_string())) {
        SaveStep::Continue(task) => task,
        other => panic!("unexpected step {other:?}"),
    };
    match task.advance(Err("No space left on device (os error 28)".to_string())) {
        SaveStep::Failed(error) => assert_eq!(
            error,
            SettingsError::Io("No space left on device (os error 28)".to_string())
        ),
        other => panic!("unexpected step {other:?}"),
    }
}

#[test]
fn a_failed_rename_is_an_io_error() {
    let task = match wide_manager(800).save().encoded(Ok("new".to_string())) {
        SaveStep::Continue(task) => task,
        other => panic!("unexpected step {other:?}"),
    };
    let task = match task.advance(Ok(())) {
        SaveStep::Continue(task) => task,
        other => panic!("unexpected step {other:?}"),
    };
    match task.advance(Err("Permission denied (os error 13)".to_string())) {
        SaveStep::Failed(error) => {
            assert_eq!(error, SettingsError::Io("Permission denied (os error 13)".to_string()))
        }
        other => panic!("unexpected step {other:?}"),
    }
}

fn wide_manager(width: u32) -> SettingsManager {
    let read = SettingsManager::new(Some("/cfg".to_string())).unwrap().prepared(Ok(())).unwrap();
    match read.loaded(Ok(Some("text".to_string()))).unwrap() {
        Loaded::Decode(request) => request.decoded(Ok(wide(width))).unwrap(),
        Loaded::Ready(_) => panic!("a file was found"),
    }
}

#[test]
fn save_then_load_yields_an_equal_value() {
    let mut disk = FakeDisk::empty();
    let codec = Codec::new();
    let mut manager = open(&mut disk, &codec).unwrap();
    let mut settings = wide(1024);
    settings.preferences.theme = Theme::Dark;
    settings.preferences.keyboard_shortcuts.custom_shortcuts.insert(
        "help".to_string(),
        "Alt+H".to_string(),
    );
    settings.ai_providers.openai = Some(OpenAIConfig {
        model: "o-large".to_string(),
        temperature: Temperature::from_bits(0.7f32.to_bits()),
        max_tokens: 4096,
    });
    settings.preferences.keyboard_shortcuts.custom_shortcuts.insert(
        "about".to_string(),
        "CommandOrControl+I".to_string(),
    );
    settings.preferences.startup_behavior = StartupBehavior::Minimized;
    settings.ai_providers.anthropic = Some(AnthropicConfig {
        model: "a-large".to_string(),
        temperature: Temperature::from_bits(1.0f32.to_bits()),
        max_tokens: 1,
    });
    update(&mut manager, settings.clone(), &mut disk, &codec).unwrap();
    let reopened = open(&mut disk, &codec).unwrap();
    assert_eq!(reopened.get_settings().unwrap(), settings);
}

#[test]
fn the_settings_file_holds_the_documented_names_and_words() {
    let mut settings = Settings::default();
    settings.preferences.theme = Theme::Dark;
    settings.preferences.startup_behavior = StartupBehavior::Hidden;
    let document: Value = serde_json::from_str(&text_of(&settings)).unwrap();
    assert_eq!(document["preferences"]["window_width"], Value::from(800));
    assert_eq!(document["preferences"]["window_height"], Value::from(600));
    assert_eq!(document["preferences"]["theme"], Value::from("dark"));
    assert_eq!(document["preferences"]["startup_behavior"], Value::from("hidden"));
    assert_eq!(
        document["preferences"]["keyboard_shortcuts"]["custom_shortcuts"]["settings"],
        Value::from("CommandOrControl+,")
    );
    assert_eq!(document["ai_providers"]["openai"], Value::Null);
    assert_eq!(document["ai_providers"]["anthropic"], Value::Null);
}

#[test]
fn a_document_with_an_unknown_theme_is_a_serialization_error() {
    let mut disk = FakeDisk::holding(&text_of(&Settings::default()).replace("system", "sepia"));
    let result = open(&mut disk, &Codec::new());
    assert_eq!(result.err(), Some(SettingsError::Json("unknown variant `sepia`".to_string())));
}

#[test]
fn an_interrupted_save_leaves_the_settings_file_unchanged() {
    let mut disk = FakeDisk::holding("the old text");
    let task = match wide_manager(900).save().encoded(Ok("the new text".to_string())) {
        SaveStep::Continue(task) => task,
        other => panic!("unexpected step {other:?}"),
    };
    let outcome = disk.perform(task.action()).map(|_| ());
    // The process stops here, between the write and the rename.
    assert_eq!(disk.settings, Some("the old text".to_string()));
    assert_eq!(disk.temp, Some("the new text".to_string()));
    // Had it gone on, the rename would have put the new text in place, whole.
    let task = match task.advance(outcome) {
        SaveStep::Continue(task) => task,
        other => panic!("unexpected step {other:?}"),
    };
    let outcome = disk.perform(task.action()).map(|_| ());
    assert!(matches!(task.advance(outcome), SaveStep::Done));
    assert_eq!(disk.settings, Some("the new text".to_string()));
    assert_eq!(disk.temp, None);
}

#[test]
fn two_updates_in_a_row_leave_the_second_on_disk() {
    let mut disk = FakeDisk::empty();
    let codec = Codec::new();
    let mut manager = open(&mut disk, &codec).unwrap();
    update(&mut manager, wide(1000), &mut disk, &codec).unwrap();
    let mut second = manager.get_settings().unwrap();
    assert_eq!(second, wide(1000));
    second.preferences.window_height = 700;
    update(&mut manager, second.clone(), &mut disk, &codec).unwrap();
    assert_eq!(manager.get_settings().unwrap(), second);
    assert_eq!(disk.settings, Some(text_of(&second)));
    assert_eq!(disk.temp, None);
    for op in &disk.log {
        if let FileOp::Write { file, content } = op {
            assert_eq!(*file, StoreFile::Temp);
            assert!(*content == text_of(&wide(1000)) || *content == text_of(&second));
        }
    }
}

#[test]
fn a_failed_save_keeps_the_new_settings_in_force() {
    let mut manager = wide_manager(800);
    let request = manager.update_settings(wide(1200));
    let task = match request.encoded(Ok("text".to_string())) {
        SaveStep::Continue(task) => task,
        other => panic!("unexpected step {other:?}"),
    };
    assert!(matches!(task.advance(Err("disk full".to_string())), SaveStep::Failed(_)));
    assert_eq!(manager.get_settings().unwrap(), wide(1200));
    // The caller can save again without handing the settings in anew.
    assert_eq!(manager.save().settings(), &wide(1200));
}

#[test]
fn the_command_refuses_invalid_settings_and_leaves_the_store_alone() {
    let mut manager = wide_manager(800);
    let result = commands::update_settings(wide(399), &mut manager);
    assert_eq!(
        result.err(),
        Some(CommandError::InvalidInput("Window width must be at least 400 pixels".to_string()))
    );
    assert_eq!(manager.get_settings().unwrap(), wide(800));
    assert_eq!(commands::get_settings(&manager).unwrap(), wide(800));
}

#[test]
fn the_command_puts_valid_settings_in_force_and_begins_the_save() {
    let mut manager = wide_manager(800);
    let request = commands::update_settings(wide(400), &mut manager).unwrap();
    assert_eq!(request.settings(), &wide(400));
    assert_eq!(commands::get_settings(&manager).unwrap(), wide(400));
}

#[test]
fn a_failed_save_reaches_the_caller_as_a_settings_error() {
    let error = SettingsError::Io("disk full".to_string());
    assert_eq!(
        CommandError::from(error),
        CommandError::Settings("IO error: disk full".to_string())
    );
}
