//! A local SSH-agent with an encrypted key store, a consent policy that
//! gates use of private keys, and a privilege-separated process model.
//!
//! The library holds the verified core: the key-record store and its
//! decode-on-read view, the authorization policy that decides when a signing
//! request must be confirmed by the user, the bootstrap loader that injects
//! stored identities into a running agent, the serving-socket lifecycle, and
//! the two OS sandbox profiles. Process plumbing (sockets, dialogs,
//! configuration files, the async runtime) lives outside, in the binary that
//! drives this library.

pub mod cli;
pub mod config;
pub mod db;
pub mod errors;
pub mod input;
pub mod keys;
pub mod lifecycle;
pub mod loader;
pub mod policy;
pub mod sandbox;
pub mod socket;
