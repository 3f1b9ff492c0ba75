//! The commands of the command line.

use vstd::prelude::*;

verus! {

/// What to do with the settings.
#[derive(Clone, Debug, PartialEq, Eq)]
pub enum ConfigCommands {
    /// Show them.
    Show,
    /// Give the setting `key` the value `value`.
    SetValue { key: String, value: String },
}

/// What the command line asks for.
#[derive(Clone, Debug, PartialEq, Eq)]
pub enum Commands {
    /// Show the version.
    Version,
    /// Show or change the settings.
    Config { command: ConfigCommands },
    /// Ask the backend once, without a conversation.
    Prompt { text: String },
}

/// A parsed command line.
#[derive(Clone, Debug, PartialEq, Eq)]
pub struct Cli {
    pub command: Commands,
}

} // verus!
