//! The settings of a session, and the list of commands that the user
//! allowed for good.

use crate::error::{ErrorView, ShellmindError};
use crate::text::{same_text, texts};
use vstd::prelude::*;
use vstd::string::*;

verus! {

/// The transport to the backend.
#[derive(Clone, Copy, Debug, PartialEq, Eq, Structural)]
pub enum ApiType {
    Rest,
    Grpc,
}

impl Default for ApiType {
    fn default() -> (r: ApiType)
        ensures
            r == ApiType::Rest,
    {
        ApiType::Rest
    }
}

/// The settings.
#[derive(Clone, Debug, PartialEq, Eq)]
pub struct ShellmindConfig {
    pub api_key: String,
    pub model_name: String,
    /// The sampling temperature, as the bits of a single-precision number.
    pub temperature_bits: u32,
    pub context_window_size: usize,
    pub api_type: ApiType,
    pub grpc_endpoint: String,
    pub system_prompt: String,
    /// The allow-list: command lines that the user allowed for good, each
    /// once, in the order in which they were allowed.
    pub allowed_commands: Vec<String>,
}

/// The view of `ShellmindConfig`: the same value, with every text as its characters.
pub struct ConfigView {
    pub api_key: Seq<char>,
    pub model_name: Seq<char>,
    pub temperature_bits: u32,
    pub context_window_size: usize,
    pub api_type: ApiType,
    pub grpc_endpoint: Seq<char>,
    pub system_prompt: Seq<char>,
    pub allowed_commands: Seq<Seq<char>>,
}

impl View for ShellmindConfig {
    type V = ConfigView;

    open spec fn view(&self) -> ConfigView {
        ConfigView {
            api_key: self.api_key@,
            model_name: self.model_name@,
            temperature_bits: self.temperature_bits,
            context_window_size: self.context_window_size,
            api_type: self.api_type,
            grpc_endpoint: self.grpc_endpoint@,
            system_prompt: self.system_prompt@,
            allowed_commands: texts(self.allowed_commands@),
        }
    }
}

/// The bits of the default temperature, two tenths.
pub const DEFAULT_TEMPERATURE_BITS: u32 = 0x3e4c_cccd;

/// The settings where none are given, but for the key.
pub open spec fn default_settings(api_key: Seq<char>) -> ConfigView {
    ConfigView {
        api_key,
        model_name: "gemini-1.5-flash"@,
        temperature_bits: DEFAULT_TEMPERATURE_BITS,
        context_window_size: 8,
        api_type: ApiType::Rest,
        grpc_endpoint: "https://generativelanguage.googleapis.com"@,
        system_prompt: "You are Shellmind, an advanced, proactive AI assistant integrated into a Linux terminal. Your primary goal is to understand user requests and directly assist by performing tasks, providing information, or generating and executing appropriate shell commands. You should act as an intelligent agent, anticipating user needs and offering complete solutions. If a task can be directly performed (e.g., file operations, simple data processing), do so. If a command is required, generate it and explain its purpose concisely. Always prioritize direct action and helpfulness over merely translating requests into commands. Maintain context from previous interactions. Be concise, efficient, and user-centric. You should also be able to understand and respond to commands in Turkish."@,
        allowed_commands: Seq::empty(),
    }
}

/// The allow-list after `command` was allowed: it comes last, unless it
/// stands in the list already.
pub open spec fn allowed_with(list: Seq<Seq<char>>, command: Seq<char>) -> Seq<Seq<char>> {
    if list.contains(command) {
        list
    } else {
        list.push(command)
    }
}

/// The check of the settings: they are usable where the key is not empty.
pub open spec fn settings_fault(config: ConfigView) -> Option<ErrorView> {
    if config.api_key.len() == 0 {
        Some(
            ErrorView::Other(
                "API Key is not set. Please set it using the config command or GEMINI_API_KEY environment variable."@,
            ),
        )
    } else {
        None
    }
}

/// Whether `list` holds `command`.
pub fn is_allowed(list: &Vec<String>, command: &str) -> (r: bool)
    ensures
        r == texts(list@).contains(command@),
{
    let mut i: usize = 0;
    while i < list.len()
        invariant
            i <= list@.len(),
            forall|k: int| 0 <= k < i ==> texts(list@)[k] != command@,
        decreases list@.len() - i,
    {
        if same_text(list[i].as_str(), command) {
            assert(texts(list@)[i as int] == command@);
            return true;
        }
        i = i + 1;
    }
    false
}

/// Works on the settings.
#[derive(Clone, Debug, PartialEq, Eq)]
pub struct ConfigManager;

impl ConfigManager {
    /// The settings where none are given, with the key `api_key`.
    pub fn default_configuration(api_key: String) -> (r: ShellmindConfig)
        ensures
            r@ == default_settings(api_key@),
    {
        let r = ShellmindConfig {
            api_key,
            model_name: String::from_str("gemini-1.5-flash"),
            temperature_bits: DEFAULT_TEMPERATURE_BITS,
            context_window_size: 8,
            api_type: ApiType::Rest,
            grpc_endpoint: String::from_str("https://generativelanguage.googleapis.com"),
            system_prompt: String::from_str(
                "You are Shellmind, an advanced, proactive AI assistant integrated into a Linux terminal. Your primary goal is to understand user requests and directly assist by performing tasks, providing information, or generating and executing appropriate shell commands. You should act as an intelligent agent, anticipating user needs and offering complete solutions. If a task can be directly performed (e.g., file operations, simple data processing), do so. If a command is required, generate it and explain its purpose concisely. Always prioritize direct action and helpfulness over merely translating requests into commands. Maintain context from previous interactions. Be concise, efficient, and user-centric. You should also be able to understand and respond to commands in Turkish.",
            ),
            allowed_commands: Vec::new(),
        };
        assert(texts(r.allowed_commands@) =~= Seq::<Seq<char>>::empty());
        r
    }

    /// Puts `command` on the allow-list, unless it stands there already.
    /// Nothing else changes, and no entry leaves the list.
    pub fn add_allowed_command(config: &mut ShellmindConfig, command: &str)
        ensures
            final(config)@ == (ConfigView {
                allowed_commands: allowed_with(old(config)@.allowed_commands, command@),
                ..old(config)@
            }),
    {
        if !is_allowed(&config.allowed_commands, command) {
            config.allowed_commands.push(String::from_str(command));
            assert(texts(config.allowed_commands@) =~= texts(old(config).allowed_commands@).push(
                command@,
            ));
        }
    }

    /// Checks the settings: an empty key is refused.
    pub fn validate_configuration(config: &ShellmindConfig) -> (r: Result<(), ShellmindError>)
        ensures
            match r {
                Ok(_) => settings_fault(config@) is None,
                Err(e) => settings_fault(config@) == Some(e@),
            },
    {
        if config.api_key.as_str().unicode_len() == 0 {
            return Err(
                ShellmindError::Other(
                    String::from_str(
                        "API Key is not set. Please set it using the config command or GEMINI_API_KEY environment variable.",
                    ),
                ),
            );
        }
        Ok(())
    }
}

impl ShellmindConfig {
    /// Puts `command` on the allow-list, unless it stands there already.
    pub fn add_allowed_command(&mut self, command: &str)
        ensures
            final(self)@ == (ConfigView {
                allowed_commands: allowed_with(old(self)@.allowed_commands, command@),
                ..old(self)@
            }),
    {
        ConfigManager::add_allowed_command(self, command)
    }
}

/// The text that opens every conversation.
pub fn get_system_prompt_text(config: &ShellmindConfig) -> (r: String)
    ensures
        r@ == config@.system_prompt,
{
    config.system_prompt.clone()
}

} // verus!
