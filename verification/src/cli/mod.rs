//! The command line, as data.

pub mod commands;

pub use commands::{
    Cli, Commands, GenArgs, InitArgs, NewArgs, PluginArgs, PluginCommands, ServerArgs,
};
