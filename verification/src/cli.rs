use vstd::prelude::*;

verus! {

/// The command line: one subcommand.
#[derive(Debug, Clone, PartialEq)]
pub struct Cli {
    pub command: Commands,
}

/// What the program is asked to do.
#[derive(Debug, Clone, PartialEq)]
pub enum Commands {
    /// Run the server in the foreground, on this host and port.
    Serve { port: u16, host: String },
    /// Run the server on localhost and open the admin panel, unless told not to.
    Admin { port: u16, no_open: bool },
    /// Update to the latest version.
    Update,
    /// Uninstall the program.
    Uninstall,
    /// Print the application log.
    Logs,
    /// Reset the admin password, to the one given or to a random one.
    ResetPassword { password: Option<String> },
}

} // verus!
