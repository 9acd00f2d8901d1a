//! Values of the protocol with the neutron communicators.

use vstd::prelude::*;

verus! {

/// A command exchanged with a neutron communicator.
#[derive(Clone, Copy, Debug)]
pub enum CommandType {
    /// Sent.
    StartUpdateDownloadAndInstall,
    /// Sent.
    RefreshUpdateManifest,
    /// Received.
    Changelogs,
    /// Received.
    StateUpdate,
}

/// A command with its data.
pub struct Command {
    pub command: CommandType,
    pub data: String,
}

/// A command carrying `data`.
pub fn new_command(command: CommandType, data: &str) -> (c: Command)
    ensures
        c.command == command,
        c.data@ == data@,
{
    Command { command, data: data.to_owned() }
}

} // verus!
