//! Decision logic of a login helper for the USTC campus network gateway.
//!
//! The library holds what the helper decides: how a configuration file is
//! checked and repaired, where files live, whether the active connection is a
//! campus connection that still needs a login, how a login attempt proceeds
//! from one network answer to the next, and what the daemon reacts to.
//! The binary around it performs the D-Bus, keyring, HTTP and socket I/O.

pub mod config;
pub mod daemon;
pub mod error;
pub mod login;
pub mod nm;
pub mod probe;
pub mod text;

use vstd::prelude::*;

verus! {

/// Path of the Unix socket through which the command-line client talks to the daemon.
pub const SOCKET_FILE: &'static str = "/tmp/wlt-helper-socket.sock";

} // verus!
