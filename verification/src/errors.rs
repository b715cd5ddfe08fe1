//! The error taxonomy shared by the daemon and the client dispatcher.

use vstd::prelude::*;

verus! {

/// Every failure the daemon or a client can report.
///
/// - `ConfigurationError`: the user's home directory cannot be resolved, so no
///   runtime path exists; fatal before any daemon or client logic runs.
/// - `DaemonUnreachable`: the channel file exists but the connection was
///   refused; reported by the control client, which exits non-zero.
/// - `ProtocolError`: a connection closed before sending any bytes; local to
///   that connection, never fatal to the daemon.
/// - `UnknownCommand`: decoded text matches no recognized command; logged, no
///   state change.
/// - `PlaybackError`: the target track cannot be opened; the attempted
///   transition is abandoned and the session keeps its prior state.
#[derive(Clone, Copy, Debug, PartialEq, Eq, Structural)]
pub enum DaemonError {
    ConfigurationError,
    DaemonUnreachable,
    ProtocolError,
    UnknownCommand,
    PlaybackError,
}

impl DaemonError {
    /// A short human-readable description, for the daemon's log and the
    /// client's stderr.
    pub fn describe(&self) -> (r: &'static str)
        ensures
            r@ == self.describe_spec(),
    {
        match self {
            DaemonError::ConfigurationError => "could not resolve the home directory",
            DaemonError::DaemonUnreachable => "daemon is not reachable over the channel",
            DaemonError::ProtocolError => "client disconnected before sending a command",
            DaemonError::UnknownCommand => "unknown command",
            DaemonError::PlaybackError => "failed to open the requested track",
        }
    }

    pub open spec fn describe_spec(self) -> Seq<char> {
        match self {
            DaemonError::ConfigurationError => "could not resolve the home directory"@,
            DaemonError::DaemonUnreachable => "daemon is not reachable over the channel"@,
            DaemonError::ProtocolError => "client disconnected before sending a command"@,
            DaemonError::UnknownCommand => "unknown command"@,
            DaemonError::PlaybackError => "failed to open the requested track"@,
        }
    }
}

} // verus!
