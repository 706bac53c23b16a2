//! The command line of the interactive front end, as values.

use vstd::prelude::*;
use std::path::PathBuf;

verus! {

/// The parsed command line.
#[derive(Debug)]
pub struct Cli {
    /// Path of the configuration file.
    pub config: Option<PathBuf>,
    /// Verbose output.
    pub verbose: bool,
    /// Subcommand, if any.
    pub command: Option<Commands>,
}

/// Subcommands.
#[derive(Debug)]
pub enum Commands {
    /// Configuration management.
    Config { action: ConfigAction },
    /// The interactive interface (the default).
    Run,
}

/// Configuration subcommands.
#[derive(Debug)]
pub enum ConfigAction {
    /// Show the configuration.
    Show,
    /// List the color schemes.
    ListColors,
    /// List the keymaps.
    ListKeymaps,
    /// Set values, as a key and a value or by flags.
    SetValues {
        key: Option<String>,
        value: Option<String>,
        color_scheme: Option<String>,
        keymap: Option<String>,
        defer_hour: Option<u32>,
        due_hour: Option<u32>,
    },
    /// Back to the defaults.
    Reset,
    /// Show the configuration file's path.
    Path,
    /// Edit the configuration file.
    Edit,
}

impl Cli {
    /// Whether to run the interactive interface rather than a subcommand.
    pub fn should_run_tui(&self) -> (r: bool)
        ensures
            r == (self.command is None || self.command matches Some(Commands::Run)),
    {
        match &self.command {
            None => true,
            Some(Commands::Run) => true,
            Some(Commands::Config { .. }) => false,
        }
    }

    /// Whether the command line asks for configuration changes at the top level; it
    /// has no such options.
    pub fn has_config_changes(&self) -> (r: bool)
        ensures
            !r,
    {
        false
    }
}

} // verus!
