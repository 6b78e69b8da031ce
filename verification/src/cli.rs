//! The command line of the runner: its subcommands and what a `ctl`
//! action asks of the running daemon.
use vstd::prelude::*;

use crate::ipc::{
    command_name, law_command_request_read_back, law_status_request_read_back, request_named,
    ControlCommand, RequestView,
};

verus! {

/// The parsed command line.
#[derive(Debug, Clone)]
pub struct Cli {
    pub command: Command,
}

/// A subcommand, with the configuration file it names where it takes one.
#[derive(Debug, Clone)]
pub enum Command {
    /// Run the daemon.
    Run { config: Option<String> },
    /// Switch the running daemon to another configuration file.
    Switch { config: String },
    /// Print environment diagnostics.
    Doctor,
    /// Print the effective configuration as TOML.
    PrintConfig { config: Option<String> },
    /// Control the running daemon.
    Ctl { action: ControlAction },
}

/// What `ctl` asks of the running daemon.
#[derive(Debug, Clone, Copy, PartialEq, Eq, Structural)]
pub enum ControlAction {
    Stop,
    Pause,
    Resume,
    Reload,
    HideWindow,
    ShowWindow,
    Status,
}

/// The command that an action sends; `status` sends none.
pub open spec fn action_command(a: ControlAction) -> Option<ControlCommand> {
    match a {
        ControlAction::Stop => Some(ControlCommand::Stop),
        ControlAction::Pause => Some(ControlCommand::Pause),
        ControlAction::Resume => Some(ControlCommand::Resume),
        ControlAction::Reload => Some(ControlCommand::Reload),
        ControlAction::HideWindow => Some(ControlCommand::HideWindow),
        ControlAction::ShowWindow => Some(ControlCommand::ShowWindow),
        ControlAction::Status => None,
    }
}

impl ControlAction {
    /// The command that the action sends; `status` sends none and asks for
    /// the daemon's status instead.
    pub fn command(self) -> (c: Option<ControlCommand>)
        ensures
            c == action_command(self),
    {
        match self {
            ControlAction::Stop => Some(ControlCommand::Stop),
            ControlAction::Pause => Some(ControlCommand::Pause),
            ControlAction::Resume => Some(ControlCommand::Resume),
            ControlAction::Reload => Some(ControlCommand::Reload),
            ControlAction::HideWindow => Some(ControlCommand::HideWindow),
            ControlAction::ShowWindow => Some(ControlCommand::ShowWindow),
            ControlAction::Status => None,
        }
    }
}

/// What `ctl` sends reaches the daemon as what was asked: each command as
/// that command (never the daemon's own `reconfigure`), and `status` as the
/// status request.
pub proof fn law_ctl_requests_read_back(a: ControlAction)
    ensures
        match action_command(a) {
            Some(c) => c != ControlCommand::Reconfigure && request_named(command_name(c)) == Some(
                RequestView::Command(c),
            ),
            None => a == ControlAction::Status && request_named("status"@) == Some(RequestView::Status),
        },
{
    match action_command(a) {
        Some(c) => law_command_request_read_back(c),
        None => law_status_request_read_back(),
    }
}

} // verus!
