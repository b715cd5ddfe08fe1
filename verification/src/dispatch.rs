//! The client dispatcher's decision: given the parsed invocation and whether
//! the channel exists and accepted a connection, decide whether this process
//! is a status query, a control client sending one command, the bootstrap of
//! a fresh daemon, or a usage error.

use vstd::prelude::*;
use crate::errors::DaemonError;
use crate::protocol::{encode_command, known_command, wire_spec};

verus! {

/// One invocation's arguments: the track path to bootstrap playback with,
/// the numeric command mapped onto the wire command set, and the status-view
/// flag that never touches the channel.
#[derive(Debug)]
pub struct Args {
    pub title: String,
    pub command: u8,
    pub view: bool,
}

/// The shape of an invocation.
pub struct ArgsV {
    pub title: Seq<char>,
    pub command: u8,
    pub view: bool,
}

impl View for Args {
    type V = ArgsV;

    open spec fn view(&self) -> ArgsV {
        ArgsV { title: self.title@, command: self.command, view: self.view }
    }
}

/// What this invocation must do.
#[derive(Debug, PartialEq)]
pub enum ClientPlan {
    /// Read the now-playing store directly; works with or without a daemon.
    View,
    /// Send this one message over the channel, then exit.
    Send(String),
    /// No daemon is reachable: detach and run one, bootstrapped with this
    /// track.
    Bootstrap(String),
    /// Neither a track to bootstrap with nor a daemon to talk to: report
    /// usage and exit non-zero.
    Usage,
}

/// The shape of a `ClientPlan`.
pub enum PlanV {
    View,
    Send(Seq<char>),
    Bootstrap(Seq<char>),
    Usage,
}

impl View for ClientPlan {
    type V = PlanV;

    open spec fn view(&self) -> PlanV {
        match self {
            ClientPlan::View => PlanV::View,
            ClientPlan::Send(m) => PlanV::Send(m@),
            ClientPlan::Bootstrap(t) => PlanV::Bootstrap(t@),
            ClientPlan::Usage => PlanV::Usage,
        }
    }
}

/// The dispatcher's decision. A `view` query bypasses the channel entirely.
/// A connectable channel makes this a control client; a channel file that
/// refuses the connection is reported as the daemon being unreachable,
/// distinct from not running; no channel at all makes this the invocation
/// that must create the daemon, which requires a track.
pub open spec fn dispatch_spec(a: ArgsV, channel_exists: bool, connect_ok: bool) -> Result<
    PlanV,
    DaemonError,
> {
    if a.view {
        Ok(PlanV::View)
    } else if channel_exists && connect_ok {
        if known_command(a.command) {
            Ok(PlanV::Send(wire_spec(a.command, a.title)))
        } else {
            Err(DaemonError::UnknownCommand)
        }
    } else if channel_exists {
        Err(DaemonError::DaemonUnreachable)
    } else if a.title.len() > 0 {
        Ok(PlanV::Bootstrap(a.title))
    } else {
        Ok(PlanV::Usage)
    }
}

/// Decide what this invocation does, from the arguments, whether the channel
/// file exists, and whether connecting to it succeeded.
pub fn dispatch(args: &Args, channel_exists: bool, connect_ok: bool) -> (r: Result<
    ClientPlan,
    DaemonError,
>)
    ensures
        r is Ok <==> dispatch_spec(args@, channel_exists, connect_ok) is Ok,
        r matches Ok(p) ==> p@ == dispatch_spec(args@, channel_exists, connect_ok)->Ok_0,
        r matches Err(e) ==> e == dispatch_spec(args@, channel_exists, connect_ok)->Err_0,
{
    if args.view {
        Ok(ClientPlan::View)
    } else if channel_exists && connect_ok {
        match encode_command(args.command, args.title.as_str()) {
            Some(m) => Ok(ClientPlan::Send(m)),
            None => Err(DaemonError::UnknownCommand),
        }
    } else if channel_exists {
        Err(DaemonError::DaemonUnreachable)
    } else if !args.title.as_str().is_empty() {
        Ok(ClientPlan::Bootstrap(args.title.clone()))
    } else {
        Ok(ClientPlan::Usage)
    }
}

} // verus!
