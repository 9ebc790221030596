//! The management commands the binary dispatches on.
//!
//! Argument parsing itself happens outside the library; what stands here is
//! the closed set of commands, so that dispatch decisions — most of all
//! which sandbox profile a command runs under — are verified.

use vstd::prelude::*;

verus! {

/// One invocation's subcommand.
#[derive(Debug, PartialEq)]
pub enum Command {
    /// Generate a key for a particular service.
    GenKey { name: String, user: String, host: String, port: u16 },
    /// Show a key for a particular service; with no name, show all keys.
    ShowKey { name: Option<String> },
    /// Delete a key for a particular service.
    DeleteKey { name: String },
    /// Change fields of a pre-existing record.
    UpdateKey {
        name: String,
        user: Option<String>,
        host: Option<String>,
        port: Option<u16>,
        genkey: Option<bool>,
    },
    /// Import an existing key file under a nickname drawn from the SSH
    /// configuration.
    ImportKey { name: String, path: String, pass: Option<String> },
    /// Start the listener process and serve agent requests.
    Serve {},
    /// Inject all stored keys into a running agent.
    AddKeysToServer {},
    /// Change the master password of the store.
    ChangePassword {},
}

} // verus!
