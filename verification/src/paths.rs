//! The runtime paths: one pure derivation from the user's home directory to
//! the state directory, the channel (socket) path, the now-playing state
//! file and the PID file. Without a home directory nothing else can run.

use vstd::prelude::*;
use vstd::string::*;
use crate::errors::DaemonError;

verus! {

/// The per-user locations the daemon and its clients share. Derived once at
/// process start; immutable for the process lifetime.
#[derive(Debug)]
pub struct DirData {
    /// The state directory everything else lives under.
    pub playmedir: String,
    /// The channel: the local socket control clients connect to.
    pub socket_path: String,
    /// The now-playing record.
    pub state_file: String,
    /// Where the detached daemon's process id is recorded.
    pub pid_file: String,
}

impl DirData {
    /// Each path is the home directory followed by its fixed suffix.
    pub open spec fn derived_from(self, home: Seq<char>) -> bool {
        &&& self.playmedir@ == home + "/.local/share/playmectl/"@
        &&& self.socket_path@ == self.playmedir@ + "playme.socket"@
        &&& self.state_file@ == self.playmedir@ + "currently_playing.txt"@
        &&& self.pid_file@ == self.playmedir@ + "playmectl.pid"@
    }

    /// Derive the four paths from the home directory, or report the fatal
    /// configuration failure when none could be resolved.
    pub fn new(home: Option<&str>) -> (r: Result<DirData, DaemonError>)
        ensures
            r is Ok <==> home is Some,
            r matches Ok(d) ==> d.derived_from(home->Some_0@),
            r matches Err(e) ==> e == DaemonError::ConfigurationError,
    {
        match home {
            None => Err(DaemonError::ConfigurationError),
            Some(h) => {
                let playmedir = String::from_str(h).concat("/.local/share/playmectl/");
                let socket_path = playmedir.clone().concat("playme.socket");
                let state_file = playmedir.clone().concat("currently_playing.txt");
                let pid_file = playmedir.clone().concat("playmectl.pid");
                Ok(DirData { playmedir, socket_path, state_file, pid_file })
            },
        }
    }
}

} // verus!
