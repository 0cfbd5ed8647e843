use vstd::prelude::*;

verus! {

/// A parsed command line.
#[derive(Debug)]
pub struct Cli {
    pub command: CliCommand,
}

#[derive(Debug)]
pub enum CliCommand {
    /// Install the program and start it automatically.
    Install(InstallArgs),
    /// Stop the service and remove its auto-start entry.
    Uninstall { full: bool },
    /// Run the long-lived service.
    Service,
    /// Show the token's subscriptions.
    Status(StatusArgs),
    /// Generate an invitation code.
    Invite(InviteArgs),
    /// Order a subscription.
    Order,
}

impl CliCommand {
    /// Every command but the background service talks to a console.
    pub fn attaches_console(&self) -> (r: bool)
        ensures
            r == !(self is Service),
    {
        match self {
            CliCommand::Service => false,
            _ => true,
        }
    }
}

#[derive(Debug)]
pub struct InstallArgs {
    /// The token to use; the cached one when absent.
    pub token: Option<String>,
}

#[derive(Debug)]
pub struct StatusArgs {
    /// The token to use; the cached one when absent.
    pub token: Option<String>,
}

#[derive(Debug)]
pub struct InviteArgs {
    /// The token to use; the cached one when absent.
    pub token: Option<String>,
}

} // verus!
