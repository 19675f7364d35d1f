//! The command line: what the user asked for.
use vstd::prelude::*;

use crate::service::ServiceAction;

verus! {

/// The parsed command line.
pub struct Cli {
    pub command: Option<Commands>,
}

/// The subcommands.
pub enum Commands {
    /// Serve the gateway
    Serve { port: Option<u16>, no_open: bool, quiet: bool },
    /// Open the dashboard in a browser
    Dash,
    /// Manage credentials
    Auth { provider: AuthProvider },
    /// Manage the systemd user service
    Service { action: ServiceAction },
}

/// The providers whose credentials `cram auth` stores.
pub enum AuthProvider {
    /// Authenticate Vertex AI with a service account key file
    Vertex { key_file: String },
}

impl Cli {
    /// The command to run: the one given, or `serve` with no flags when none
    /// was given.
    pub fn command_or_default(self) -> (r: Commands)
        ensures
            match self.command {
                Some(c) => r == c,
                None => r == (Commands::Serve { port: None, no_open: false, quiet: false }),
            },
    {
        match self.command {
            Some(c) => c,
            None => Commands::Serve { port: None, no_open: false, quiet: false },
        }
    }
}

} // verus!
