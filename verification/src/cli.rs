//! The command line: its subcommands and flags, and which action a parsed
//! command line asks for.

use vstd::prelude::*;

verus! {

/// A parsed command line.
pub struct Cli {
    pub command: Option<Commands>,
}

/// The subcommands.
#[derive(Debug, Clone, Copy, PartialEq, Eq, Structural)]
pub enum Commands {
    /// Manage configuration.
    Config { show: bool, reset: bool, edit: bool, update: bool, path: bool, init: bool },
    /// Manage semantic search embeddings.
    Embeddings { status: bool, reindex: bool },
}

/// What the command line asks for.
#[derive(Debug, Clone, Copy, PartialEq, Eq, Structural)]
pub enum CliAction {
    /// No subcommand: run the proxy.
    Run,
    ConfigPath,
    ConfigShow,
    ConfigReset,
    ConfigEdit,
    ConfigUpdate,
    ConfigInit,
    /// `config` without a flag: show its usage.
    ConfigUsage,
    EmbeddingsStatus,
    EmbeddingsReindex,
    /// `embeddings` without a flag: show its usage.
    EmbeddingsUsage,
}

/// The action of a command line: with several flags, the first of
/// path, show, reset, edit, update, init (for `config`) and of status,
/// reindex (for `embeddings`) wins.
pub open spec fn action_of(c: Option<Commands>) -> CliAction {
    match c {
        None => CliAction::Run,
        Some(Commands::Config { show, reset, edit, update, path, init }) => if path {
            CliAction::ConfigPath
        } else if show {
            CliAction::ConfigShow
        } else if reset {
            CliAction::ConfigReset
        } else if edit {
            CliAction::ConfigEdit
        } else if update {
            CliAction::ConfigUpdate
        } else if init {
            CliAction::ConfigInit
        } else {
            CliAction::ConfigUsage
        },
        Some(Commands::Embeddings { status, reindex }) => if status {
            CliAction::EmbeddingsStatus
        } else if reindex {
            CliAction::EmbeddingsReindex
        } else {
            CliAction::EmbeddingsUsage
        },
    }
}

impl Cli {
    /// The action this command line asks for.
    pub fn action(&self) -> (r: CliAction)
        ensures
            r == action_of(self.command),
    {
        match self.command {
            None => CliAction::Run,
            Some(Commands::Config { show, reset, edit, update, path, init }) => {
                if path {
                    CliAction::ConfigPath
                } else if show {
                    CliAction::ConfigShow
                } else if reset {
                    CliAction::ConfigReset
                } else if edit {
                    CliAction::ConfigEdit
                } else if update {
                    CliAction::ConfigUpdate
                } else if init {
                    CliAction::ConfigInit
                } else {
                    CliAction::ConfigUsage
                }
            },
            Some(Commands::Embeddings { status, reindex }) => {
                if status {
                    CliAction::EmbeddingsStatus
                } else if reindex {
                    CliAction::EmbeddingsReindex
                } else {
                    CliAction::EmbeddingsUsage
                }
            },
        }
    }

    /// Whether the command line was handled as a subcommand (the program
    /// then exits instead of running the proxy).
    pub fn handled(&self) -> (r: bool)
        ensures
            r == (self.command is Some),
    {
        self.command.is_some()
    }
}

} // verus!
