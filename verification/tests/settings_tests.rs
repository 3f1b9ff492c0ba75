use shellmind::cli::{Cli, Commands, ConfigCommands};
use shellmind::config::{ApiType, ConfigManager, ShellmindConfig};
use shellmind::error::ShellmindError;
use shellmind::settings::{parse_count, set_value, show_settings, transport_of};

fn s(t: &str) -> String {
    t.to_string()
}

fn config() -> ShellmindConfig {
    ConfigManager::default_configuration(s("k"))
}

#[test]
fn counts_are_read_as_the_standard_library_reads_them() {
    for text in [
        "",
        "+",
        "0",
        "8",
        "+8",
        "007",
        "-1",
        "++1",
        "1 ",
        " 1",
        "1_000",
        "12a",
        "٣",
        "18446744073709551615",
        "18446744073709551616",
        "99999999999999999999999999",
        "4294967295",
        "4294967296",
    ] {
        assert_eq!(parse_count(text), text.parse::<usize>().ok(), "{:?}", text);
    }
}

#[test]
fn settings_are_set_by_name() {
    let mut c = config();
    assert_eq!(set_value(&mut c, "api_key", "secret", None), Ok(()));
    assert_eq!(set_value(&mut c, "model_name", "gemini-pro", None), Ok(()));
    assert_eq!(set_value(&mut c, "temperature", "0.7", Some(0.7f32.to_bits())), Ok(()));
    assert_eq!(set_value(&mut c, "context_window_size", "16", None), Ok(()));
    assert_eq!(set_value(&mut c, "api_type", "GRPC", None), Ok(()));
    assert_eq!(set_value(&mut c, "grpc_endpoint", "http://localhost:1", None), Ok(()));
    assert_eq!(set_value(&mut c, "system_prompt", "Be kind.", None), Ok(()));
    assert_eq!(
        c,
        ShellmindConfig {
            api_key: s("secret"),
            model_name: s("gemini-pro"),
            temperature_bits: 0.7f32.to_bits(),
            context_window_size: 16,
            api_type: ApiType::Grpc,
            grpc_endpoint: s("http://localhost:1"),
            system_prompt: s("Be kind."),
            allowed_commands: vec![],
        }
    );
    assert_eq!(set_value(&mut c, "api_type", "Rest", None), Ok(()));
    assert_eq!(c.api_type, ApiType::Rest);
}

#[test]
fn bad_settings_are_refused_and_change_nothing() {
    let mut c = config();
    let before = c.clone();
    assert_eq!(
        set_value(&mut c, "temperature", "warm", None),
        Err(ShellmindError::Other(s("Invalid temperature value")))
    );
    assert_eq!(
        set_value(&mut c, "context_window_size", "-3", None),
        Err(ShellmindError::Other(s("Invalid context window size value")))
    );
    assert_eq!(
        set_value(&mut c, "api_type", "soap", None),
        Err(ShellmindError::Other(s("Invalid API type. Use 'rest' or 'grpc'")))
    );
    assert_eq!(
        set_value(&mut c, "colour", "blue", None),
        Err(ShellmindError::Other(s("Unknown config key: colour")))
    );
    assert_eq!(
        set_value(&mut c, "allowed_commands", "ls", None),
        Err(ShellmindError::Other(s("Unknown config key: allowed_commands")))
    );
    assert_eq!(c, before);
}

#[test]
fn transport_names_are_in_lower_case() {
    assert_eq!(transport_of("rest"), Some(ApiType::Rest));
    assert_eq!(transport_of("grpc"), Some(ApiType::Grpc));
    assert_eq!(transport_of("Rest"), None);
    assert_eq!(transport_of(""), None);
}

#[test]
fn settings_are_shown_without_the_key() {
    let mut c = config();
    c.system_prompt = s("Be brief.");
    assert_eq!(
        show_settings(&c, "0.2"),
        vec![
            s("Current Shellmind Configuration:"),
            s("  API Key: ********"),
            s("  Model Name: gemini-1.5-flash"),
            s("  Temperature: 0.2"),
            s("  Context Window Size: 8"),
            s("  API Type: Rest"),
            s("  gRPC Endpoint: https://generativelanguage.googleapis.com"),
            s("  System Prompt: Be brief."),
        ]
    );
    c.api_key = s("");
    c.api_type = ApiType::Grpc;
    let lines = show_settings(&c, "1");
    assert_eq!(lines[1], "  API Key: Not set");
    assert_eq!(lines[5], "  API Type: Grpc");
}

#[test]
fn command_line_holds_one_command() {
    let cli = Cli {
        command: Commands::Config {
            command: ConfigCommands::SetValue { key: s("model_name"), value: s("m") },
        },
    };
    assert_ne!(cli, Cli { command: Commands::Version });
    assert_ne!(cli, Cli { command: Commands::Config { command: ConfigCommands::Show } });
    assert_eq!(
        Cli { command: Commands::Prompt { text: s("hi") } },
        Cli { command: Commands::Prompt { text: s("hi") } }
    );
}
