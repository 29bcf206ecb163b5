//! What the command line asks the service to do.
use vstd::prelude::*;

verus! {

/// A task the service binary can run.
#[derive(Clone, Copy, Debug, PartialEq, Eq, Structural)]
pub enum Command {
    /// Create the administrator account, then stop.
    CreateSuperuser,
    /// Serve the link API.
    RunServer,
}

impl Default for Command {
    fn default() -> (r: Command)
        ensures
            r == Command::RunServer,
    {
        Command::RunServer
    }
}

/// Parsed command line.
#[derive(Debug)]
pub struct Cli {
    /// The task named on the command line, if any.
    pub command: Option<Command>,
}

impl Cli {
    /// The task to run: the one named, or serving when none is.
    pub fn command(&self) -> (r: Command)
        ensures
            r == match self.command {
                Some(c) => c,
                None => Command::RunServer,
            },
    {
        match self.command {
            Some(c) => c,
            None => Command::RunServer,
        }
    }
}

} // verus!
