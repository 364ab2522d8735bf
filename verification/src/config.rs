//! Settings of one control connection.

use vstd::prelude::*;

verus! {

/// What every task of one control connection reads and none changes: the
/// feature switch for remote commands, the transport policy, the endpoints
/// and the command that a terminal session starts.
#[derive(Clone, Debug, PartialEq, Eq)]
pub struct ConnectionConfig {
    /// Whether remote commands and terminal sessions are allowed at all.
    pub terminal: bool,
    /// Whether secondary transports are opened over TLS.
    pub tls: bool,
    /// Whether certificates that do not verify are accepted.
    pub ignore_unsafe_cert: bool,
    /// The command that a terminal session runs, a shell as a rule.
    pub terminal_entry: String,
    /// Where the result of a remote command is posted.
    pub exec_callback: String,
    /// The base address of the terminal transport; a session adds its own
    /// identifier to it.
    pub ws_terminal: String,
}

} // verus!
