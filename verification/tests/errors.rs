use synapse_lib::commands::{CommandError, CommandResult};
use synapse_lib::settings::SettingsError;
use synapse_lib::utils::{AppError, AppResult};
use synapse_lib::window::WindowError;

#[test]
fn app_error_constructors_keep_the_message() {
    assert_eq!(AppError::invalid_input("a"), AppError::InvalidInput("a".to_string()));
    assert_eq!(AppError::not_found("b"), AppError::NotFound("b".to_string()));
    assert_eq!(AppError::permission_denied("c"), AppError::PermissionDenied("c".to_string()));
    assert_eq!(AppError::internal("d"), AppError::Internal("d".to_string()));
    assert_eq!(AppError::network("e"), AppError::Network("e".to_string()));
    assert_eq!(AppError::api("f"), AppError::Api("f".to_string()));
}

#[test]
fn app_error_text() {
    assert_eq!(AppError::invalid_input("a").to_string(), "Invalid input: a");
    assert_eq!(AppError::not_found("b").to_string(), "Not found: b");
    assert_eq!(AppError::permission_denied("c").to_string(), "Permission denied: c");
    assert_eq!(AppError::internal("d").to_string(), "Internal error: d");
    assert_eq!(AppError::network("e").to_string(), "Network error: e");
    assert_eq!(AppError::api("").to_string(), "API error: ");
}

#[test]
fn app_error_from_an_io_error_is_internal() {
    let error = std::io::Error::new(std::io::ErrorKind::Other, "the disk is gone");
    assert_eq!(AppError::from(error), AppError::Internal("the disk is gone".to_string()));
}

#[test]
fn app_error_from_a_json_error_is_internal() {
    let error = serde_json::from_str::<serde_json::Value>("{").unwrap_err();
    let text = error.to_string();
    assert!(!text.is_empty());
    assert_eq!(AppError::from(error), AppError::Internal(text));
}

#[test]
fn app_error_from_an_http_error_is_a_network_error() {
    let error = reqwest::Client::new().get("not a url").build().unwrap_err();
    let text = error.to_string();
    assert!(!text.is_empty());
    assert_eq!(AppError::from(error), AppError::Network(text));
}

#[test]
fn app_result_is_a_result_with_an_app_error() {
    let ok: AppResult<u32> = Ok(1);
    let err: AppResult<u32> = Err(AppError::internal("x"));
    assert_eq!(ok, Ok(1));
    assert_eq!(err.clone(), err);
}

#[test]
fn settings_error_text() {
    assert_eq!(
        SettingsError::ConfigDirNotFound.to_string(),
        "Failed to access config directory"
    );
    assert_eq!(SettingsError::Io("x".to_string()).to_string(), "IO error: x");
    assert_eq!(
        SettingsError::Json("y".to_string()).to_string(),
        "JSON serialization error: y"
    );
    assert_eq!(SettingsError::Keyring("z".to_string()).to_string(), "Keyring error: z");
    assert_eq!(
        SettingsError::NotFound("openai".to_string()).to_string(),
        "No credential stored for provider: openai"
    );
    assert_eq!(
        SettingsError::InvalidInput("w".to_string()).to_string(),
        "Invalid input: w"
    );
}

#[test]
fn command_error_text() {
    assert_eq!(CommandError::Window("a".to_string()).to_string(), "Window operation failed: a");
    assert_eq!(
        CommandError::Settings("b".to_string()).to_string(),
        "Settings operation failed: b"
    );
    assert_eq!(CommandError::Internal("c".to_string()).to_string(), "Internal error: c");
    assert_eq!(CommandError::InvalidInput("d".to_string()).to_string(), "Invalid input: d");
    assert_eq!(CommandError::NotFound("e".to_string()).to_string(), "Not found: e");
}

#[test]
fn command_error_from_app_error() {
    assert_eq!(
        CommandError::from(AppError::invalid_input("a")),
        CommandError::InvalidInput("a".to_string())
    );
    assert_eq!(
        CommandError::from(AppError::internal("b")),
        CommandError::Internal("b".to_string())
    );
    assert_eq!(
        CommandError::from(AppError::not_found("c")),
        CommandError::Internal("Not found: c".to_string())
    );
    assert_eq!(
        CommandError::from(AppError::permission_denied("d")),
        CommandError::Internal("Permission denied: d".to_string())
    );
    assert_eq!(
        CommandError::from(AppError::network("e")),
        CommandError::Internal("Network error: e".to_string())
    );
    assert_eq!(
        CommandError::from(AppError::api("f")),
        CommandError::Internal("API error: f".to_string())
    );
}

#[test]
fn command_error_from_settings_error() {
    assert_eq!(
        CommandError::from(SettingsError::InvalidInput("Invalid provider: x".to_string())),
        CommandError::InvalidInput("Invalid provider: x".to_string())
    );
    assert_eq!(
        CommandError::from(SettingsError::NotFound("openai".to_string())),
        CommandError::NotFound("No credential stored for provider: openai".to_string())
    );
    assert_eq!(
        CommandError::from(SettingsError::ConfigDirNotFound),
        CommandError::Settings("Failed to access config directory".to_string())
    );
    assert_eq!(
        CommandError::from(SettingsError::Io("a".to_string())),
        CommandError::Settings("IO error: a".to_string())
    );
    assert_eq!(
        CommandError::from(SettingsError::Json("b".to_string())),
        CommandError::Settings("JSON serialization error: b".to_string())
    );
    assert_eq!(
        CommandError::from(SettingsError::Keyring("c".to_string())),
        CommandError::Settings("Keyring error: c".to_string())
    );
}

#[test]
fn command_result_is_a_result_with_a_command_error() {
    let err: CommandResult<()> = Err(CommandError::Window("x".to_string()));
    assert_eq!(err.clone(), err);
}

#[test]
fn window_error_text() {
    assert_eq!(
        WindowError::Operation("a".to_string()).to_string(),
        "Window operation failed: a"
    );
    assert_eq!(WindowError::NotFound.to_string(), "Window not found");
    assert_eq!(WindowError::InvalidState.to_string(), "Invalid window state");
    assert_eq!(WindowError::MonitorNotFound.to_string(), "Monitor not found");
}
