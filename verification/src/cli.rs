//! The command line: what is asked for, and whether it can be done.

use vstd::prelude::*;
use vstd::string::*;
use crate::error::{ApiError, ApiErrorView};
use crate::text::{decimal, decimal_of};

verus! {

/// The lowest port that the server may be started on.
pub const LOWEST_PORT: u16 = 1024;

/// What the program is asked to do.
#[derive(Clone, Copy, Debug, PartialEq, Eq, Structural)]
pub enum Commands {
    /// Start the server on the given port.
    Start { port: u16 },
}

/// The parsed command line.
#[derive(Clone, Copy, Debug, PartialEq, Eq, Structural)]
pub struct Cli {
    pub command: Commands,
}

/// Why a command was not carried out.
#[derive(Clone, Debug, PartialEq, Eq)]
pub enum CommandError {
    /// The port lies below the lowest port that may be used.
    InvalidPort(u16),
    /// The server failed.
    ApiError(ApiError),
}

/// The mathematical value of a [`CommandError`].
pub enum CommandErrorView {
    InvalidPort(u16),
    ApiError(ApiErrorView),
}

impl View for CommandError {
    type V = CommandErrorView;

    open spec fn view(&self) -> CommandErrorView {
        match self {
            CommandError::InvalidPort(port) => CommandErrorView::InvalidPort(*port),
            CommandError::ApiError(e) => CommandErrorView::ApiError(e@),
        }
    }
}

impl CommandErrorView {
    /// The text of the failure.
    pub open spec fn text(self) -> Seq<char> {
        match self {
            CommandErrorView::InvalidPort(port) => "Invalid port number "@ + decimal_of(
                port as nat,
            ),
            CommandErrorView::ApiError(e) => "API error: "@ + e.label() + e.detail(),
        }
    }
}

impl CommandError {
    /// The text of the failure.
    pub fn message(&self) -> (text: String)
        ensures
            text@ == self@.text(),
    {
        match self {
            CommandError::InvalidPort(port) => String::from_str("Invalid port number ").concat(
                decimal(*port as u64).as_str(),
            ),
            CommandError::ApiError(e) => {
                let text = String::from_str("API error: ").concat(e.message().as_str());
                assert(text@ =~= self@.text());
                text
            },
        }
    }
}

impl Cli {
    /// The port to serve on, where the command names one that may be used:
    /// a port from 1024 up.
    pub fn port(&self) -> (r: Result<u16, CommandError>)
        ensures
            match self.command {
                Commands::Start { port } => if port >= LOWEST_PORT {
                    r == Ok::<u16, CommandError>(port)
                } else {
                    r matches Err(e) && e@ == CommandErrorView::InvalidPort(port)
                },
            },
    {
        match self.command {
            Commands::Start { port } => {
                if port < LOWEST_PORT {
                    Err(CommandError::InvalidPort(port))
                } else {
                    Ok(port)
                }
            },
        }
    }
}

} // verus!
