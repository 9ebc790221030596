//! The serving socket's lifecycle.
//!
//! The daemon binds a Unix-domain socket at a fixed path, serves until
//! interrupted, and must remove the socket file strictly before the process
//! exits — otherwise the next start fails with address-in-use. Binding
//! never cleans up a stale socket on its own: a pre-existing file is a
//! fatal error. The binary performs the actual bind, serve and unlink; this
//! model carries the order those steps must keep, and the proof that a
//! serve interrupted through `interrupt` leaves the path free for the next
//! bind.

use vstd::prelude::*;

use crate::errors::Error;

verus! {

/// Where the serving path stands.
#[derive(Clone, Copy, Debug, PartialEq, Eq, Structural)]
pub enum ServePhase {
    /// Before any bind was attempted.
    Idle,
    /// The listener is bound and accepting.
    Serving,
    /// The process is about to exit.
    Stopped,
}

/// The lifecycle state: the phase, and whether the socket file exists on
/// disk.
#[derive(Clone, Copy, Debug, PartialEq, Eq, Structural)]
pub struct SocketLifecycle {
    pub phase: ServePhase,
    pub socket_present: bool,
}

/// A bind attempt succeeds exactly when no socket file is in the way.
pub open spec fn bind_ok(s: SocketLifecycle) -> bool {
    !s.socket_present
}

/// The state an interrupted serve leaves behind: stopped, with the socket
/// file removed.
pub open spec fn after_interrupt() -> SocketLifecycle {
    SocketLifecycle { phase: ServePhase::Stopped, socket_present: false }
}

impl SocketLifecycle {
    /// Process start: nothing bound yet; a socket file may or may not be
    /// lying around from an earlier run.
    pub fn at_start(stale_socket: bool) -> (r: SocketLifecycle)
        ensures
            r.phase is Idle,
            r.socket_present == stale_socket,
    {
        SocketLifecycle { phase: ServePhase::Idle, socket_present: stale_socket }
    }

    /// Binds the listener. A stale socket file is fatal — the daemon never
    /// removes it on its own — and then nothing has changed; otherwise the
    /// file now exists and the listener accepts.
    pub fn bind(&mut self) -> (r: Result<(), Error>)
        requires
            old(self).phase is Idle,
        ensures
            bind_ok(*old(self)) ==> r is Ok && final(self).phase is Serving
                && final(self).socket_present,
            !bind_ok(*old(self)) ==> r is Err && *final(self) == *old(self),
            r matches Err(e) ==> e is Socket,
    {
        if self.socket_present {
            Err(Error::Socket)
        } else {
            self.phase = ServePhase::Serving;
            self.socket_present = true;
            Ok(())
        }
    }

    /// Handles an interrupt: the socket file is removed strictly before the
    /// process may exit, so the next start finds the path free.
    pub fn interrupt(&mut self)
        requires
            old(self).phase is Serving,
        ensures
            *final(self) == after_interrupt(),
            !final(self).socket_present,
    {
        self.socket_present = false;
        self.phase = ServePhase::Stopped;
    }

    /// A fresh start of the daemon over whatever the last run left on disk.
    pub fn restart(self) -> (r: SocketLifecycle)
        ensures
            r.phase is Idle,
            r.socket_present == self.socket_present,
    {
        SocketLifecycle { phase: ServePhase::Idle, socket_present: self.socket_present }
    }
}

/// After an interrupted serve the socket path no longer exists, so the
/// bind of a subsequent serve succeeds.
pub proof fn lemma_rebind_after_interrupt()
    ensures
        !after_interrupt().socket_present,
        bind_ok(after_interrupt()),
{
}

} // verus!
