//! The subcommand surface of the plugin binary, as plain values: the binary
//! parses argv into these and dispatches on them.

use vstd::prelude::*;

verus! {

/// A parsed command line.
#[derive(Debug, Clone)]
pub struct Cli {
    pub command: Command,
}

/// The subcommands, each with its flags; paths are kept as given.
#[derive(Debug, Clone)]
pub enum Command {
    /// Read a GitHub token from stdin, validate it, and store it in `auth_dir`.
    AuthSetup { config: String, auth_dir: String },
    /// Verify the stored token.
    AuthCheck { config: String, auth_dir: String },
    /// Mirror one task's lifecycle change to GitHub (task JSON on stdin).
    Push { task: String, config: String, auth_dir: String },
    /// Poll GitHub and emit a sync report (all tasks JSON on stdin).
    Sync { task: Option<String>, config: String, auth_dir: String },
}

/// The argv spelling of a subcommand.
pub open spec fn command_name_spec(c: Command) -> Seq<char> {
    match c {
        Command::AuthSetup { .. } => "auth-setup"@,
        Command::AuthCheck { .. } => "auth-check"@,
        Command::Push { .. } => "push"@,
        Command::Sync { .. } => "sync"@,
    }
}

impl Command {
    /// The argv spelling of this subcommand.
    pub fn name(&self) -> (r: &'static str)
        ensures
            r@ == command_name_spec(*self),
    {
        match self {
            Command::AuthSetup { .. } => "auth-setup",
            Command::AuthCheck { .. } => "auth-check",
            Command::Push { .. } => "push",
            Command::Sync { .. } => "sync",
        }
    }

}

} // verus!
