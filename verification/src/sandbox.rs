//! The two OS execution profiles of the privilege-separation scheme.
//!
//! Management commands touch the local store and nothing else; the serving
//! daemon speaks sockets. Each path gets one named capability set, built
//! here as immutable configuration before any externally influenced input
//! is processed, and auditable independent of control flow. The binary
//! translates a profile into the OS restriction primitives and must fail
//! the whole process start when the OS lacks them; the supervisor below
//! pins the remaining rule, that installation happens exactly once per
//! process.

use vstd::prelude::*;

use crate::cli::Command;

verus! {

/// One process-wide capability set, applied to all threads.
#[derive(Clone, Copy, Debug, PartialEq, Eq, Structural)]
pub struct Profile {
    /// Local file I/O: open, close, read, write, unlink, metadata, ioctl.
    pub local_file_io: bool,
    /// Unrestricted file I/O — the serving profile's known over-breadth,
    /// kept until it is narrowed to the store and the socket path, and no
    /// license to widen further.
    pub broad_file_io: bool,
    /// Start and accept Unix-domain server connections.
    pub unix_servers: bool,
    /// Run outbound Unix-domain client connections (the loader's loopback).
    pub unix_clients: bool,
    /// Start outbound TCP client connections.
    pub tcp_clients: bool,
    /// Create threads (the runtime's own signal handling needs this).
    pub thread_create: bool,
}

/// A profile under which all networking is denied.
pub open spec fn networking_denied(p: Profile) -> bool {
    !p.unix_servers && !p.unix_clients && !p.tcp_clients
}

/// The management capability set: full local file I/O on the store, all
/// networking denied.
pub open spec fn management_caps() -> Profile {
    Profile {
        local_file_io: true,
        broad_file_io: false,
        unix_servers: false,
        unix_clients: false,
        tcp_clients: false,
        thread_create: false,
    }
}

/// The serving capability set: Unix-domain serving and loopback client
/// connections, broad file I/O, thread creation.
pub open spec fn serving_caps() -> Profile {
    Profile {
        local_file_io: true,
        broad_file_io: true,
        unix_servers: true,
        unix_clients: true,
        tcp_clients: true,
        thread_create: true,
    }
}

/// Builds the management profile.
pub fn management_profile() -> (r: Profile)
    ensures
        r == management_caps(),
        networking_denied(r),
{
    Profile {
        local_file_io: true,
        broad_file_io: false,
        unix_servers: false,
        unix_clients: false,
        tcp_clients: false,
        thread_create: false,
    }
}

/// Builds the serving profile.
pub fn serving_profile() -> (r: Profile)
    ensures
        r == serving_caps(),
{
    Profile {
        local_file_io: true,
        broad_file_io: true,
        unix_servers: true,
        unix_clients: true,
        tcp_clients: true,
        thread_create: true,
    }
}

/// The profile a command runs under: the serving set for the paths that
/// must reach the agent socket — serving itself and the loopback
/// injection — and the management set for everything else.
pub fn profile_for(cmd: &Command) -> (r: Profile)
    ensures
        cmd is Serve || cmd is AddKeysToServer ==> r == serving_caps(),
        !(cmd is Serve) && !(cmd is AddKeysToServer) ==> r == management_caps(),
{
    match cmd {
        Command::Serve {  } => serving_profile(),
        Command::AddKeysToServer {  } => serving_profile(),
        _ => management_profile(),
    }
}

/// Tracks that the restriction primitives are installed at most once per
/// process.
pub struct Supervisor {
    installed: bool,
}

impl Supervisor {
    /// Whether a profile has been installed through this supervisor.
    pub closed spec fn is_installed(self) -> bool {
        self.installed
    }

    /// A process that has installed nothing yet.
    pub fn new() -> (r: Supervisor)
        ensures
            !r.is_installed(),
    {
        Supervisor { installed: false }
    }

    /// Claims the one installation this process gets. True exactly on the
    /// first call: only then may the caller apply a profile to the OS, and
    /// a false return on a path that needs a profile must abort the start.
    pub fn install(&mut self) -> (r: bool)
        ensures
            r == !old(self).is_installed(),
            final(self).is_installed(),
    {
        let first = !self.installed;
        self.installed = true;
        first
    }
}

} // verus!
