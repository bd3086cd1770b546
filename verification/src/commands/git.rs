//! The `git` subcommands.

use vstd::prelude::*;
use vstd::string::StringExecFns;
use crate::text::{decimal, decimal_text};

verus! {

/// Arguments of the `git` command.
#[derive(Debug, Clone)]
pub struct GitArgs {
    pub command: GitCommands,
}

/// What to ask of git.
#[derive(Debug, Clone, Copy, PartialEq, Eq)]
pub enum GitCommands {
    /// Show the status of the working tree.
    Status,
    /// Show the last `limit` commits, one per line.
    Log { limit: usize },
}

/// The arguments that git is run with for `command`.
pub open spec fn git_arguments_of(command: GitCommands) -> Seq<Seq<char>> {
    match command {
        GitCommands::Status => seq!["status"@],
        GitCommands::Log { limit } => seq![
            "log"@,
            "--oneline"@,
            "-"@ + decimal_text(limit as nat),
        ],
    }
}

/// The arguments to run git with for `command`.
pub fn git_arguments(command: &GitCommands) -> (arguments: Vec<String>)
    ensures
        arguments.deep_view() == git_arguments_of(*command),
{
    let mut arguments: Vec<String> = Vec::new();
    match command {
        GitCommands::Status => {
            arguments.push("status".to_owned());
        },
        GitCommands::Log { limit } => {
            arguments.push("log".to_owned());
            arguments.push("--oneline".to_owned());
            let mut count = "-".to_owned();
            let written = decimal(*limit as u64);
            count.append(written.as_str());
            arguments.push(count);
        },
    }
    arguments
}

} // verus!
