//! The daemon's playback session: one owned state record, mutated by exactly
//! one command per accepted connection. Every transition is a pure decision;
//! the surrounding application performs the audio, file and channel work the
//! returned effect asks for and reports back whether a track could be opened.

use vstd::prelude::*;
use crate::errors::DaemonError;
use crate::protocol::{Command, CommandV, decode_spec, decode_message};

verus! {

/// The session states. The bootstrap moves `Idle -> Loaded -> Playing` when
/// an initial track was supplied; `toggle_play` alternates
/// `Playing <-> Paused`; `stop` moves any state to `Stopped`; `kill` moves
/// any state to `Terminated` and ends the accept loop.
#[derive(Clone, Copy, Debug, PartialEq, Eq, Structural)]
pub enum PlayState {
    Idle,
    Loaded,
    Playing,
    Paused,
    Stopped,
    Terminated,
}

/// The daemon-owned playback session: the current track, whether an
/// infinitely-repeating view of it has been queued, and the state machine's
/// position.
#[derive(Debug)]
pub struct AudioManager {
    pub track: Option<String>,
    pub loop_mode: bool,
    pub state: PlayState,
}

/// The session's mathematical shape.
pub struct SessionV {
    pub track: Option<Seq<char>>,
    pub loop_mode: bool,
    pub state: PlayState,
}

impl View for AudioManager {
    type V = SessionV;

    open spec fn view(&self) -> SessionV {
        SessionV {
            track: match self.track {
                Some(t) => Some(t@),
                None => None,
            },
            loop_mode: self.loop_mode,
            state: self.state,
        }
    }
}

impl SessionV {
    /// The session invariant: whenever the player holds an active or queued
    /// source, the session knows which track it came from.
    pub open spec fn wf(self) -> bool {
        (self.state == PlayState::Loaded || self.state == PlayState::Playing || self.state
            == PlayState::Paused) ==> self.track is Some
    }

    /// Whether the player's queue is empty: no source loaded, playing or
    /// paused.
    pub open spec fn queue_empty(self) -> bool {
        !(self.state == PlayState::Loaded || self.state == PlayState::Playing || self.state
            == PlayState::Paused)
    }
}

/// What the application must do to the player after a transition.
#[derive(Debug, PartialEq)]
pub enum PlayerAction {
    /// Nothing to do.
    Nothing,
    /// Open this track, enqueue it, and start or resume playback.
    EnqueuePlay(String),
    /// Stop the player, clear its queue, then enqueue this track.
    StopClearEnqueue(String),
    /// Pause playback.
    Pause,
    /// Resume paused playback.
    Resume,
    /// Stop the player and clear its queue.
    StopPlayer,
    /// Enqueue an infinitely-repeating view of this track.
    EnqueueInfinite(String),
}

/// The shape of a `PlayerAction`.
pub enum ActionV {
    Nothing,
    EnqueuePlay(Seq<char>),
    StopClearEnqueue(Seq<char>),
    Pause,
    Resume,
    StopPlayer,
    EnqueueInfinite(Seq<char>),
}

impl View for PlayerAction {
    type V = ActionV;

    open spec fn view(&self) -> ActionV {
        match self {
            PlayerAction::Nothing => ActionV::Nothing,
            PlayerAction::EnqueuePlay(t) => ActionV::EnqueuePlay(t@),
            PlayerAction::StopClearEnqueue(t) => ActionV::StopClearEnqueue(t@),
            PlayerAction::Pause => ActionV::Pause,
            PlayerAction::Resume => ActionV::Resume,
            PlayerAction::StopPlayer => ActionV::StopPlayer,
            PlayerAction::EnqueueInfinite(t) => ActionV::EnqueueInfinite(t@),
        }
    }
}

/// What the application must write to the now-playing store.
#[derive(Debug, PartialEq)]
pub enum RecordUpdate {
    /// Leave the record as it is.
    Keep,
    /// Overwrite the record with this track's path.
    Write(String),
    /// Overwrite the record with the empty line: nothing playing.
    Clear,
}

/// The shape of a `RecordUpdate`.
pub enum RecordV {
    Keep,
    Write(Seq<char>),
    Clear,
}

impl View for RecordUpdate {
    type V = RecordV;

    open spec fn view(&self) -> RecordV {
        match self {
            RecordUpdate::Keep => RecordV::Keep,
            RecordUpdate::Write(t) => RecordV::Write(t@),
            RecordUpdate::Clear => RecordV::Clear,
        }
    }
}

/// Everything one handled connection asks of the application: the player
/// work, the store update, which files to remove, whether the accept loop
/// ends, and what to log.
#[derive(Debug, PartialEq)]
pub struct CommandEffect {
    pub action: PlayerAction,
    pub record: RecordUpdate,
    pub remove_channel: bool,
    pub remove_pid: bool,
    pub terminate: bool,
    pub error: Option<DaemonError>,
}

/// The shape of a `CommandEffect`.
pub struct EffectV {
    pub action: ActionV,
    pub record: RecordV,
    pub remove_channel: bool,
    pub remove_pid: bool,
    pub terminate: bool,
    pub error: Option<DaemonError>,
}

impl View for CommandEffect {
    type V = EffectV;

    open spec fn view(&self) -> EffectV {
        EffectV {
            action: self.action@,
            record: self.record@,
            remove_channel: self.remove_channel,
            remove_pid: self.remove_pid,
            terminate: self.terminate,
            error: self.error,
        }
    }
}

/// An effect that asks nothing of the application.
pub open spec fn noop_effect() -> EffectV {
    EffectV {
        action: ActionV::Nothing,
        record: RecordV::Keep,
        remove_channel: false,
        remove_pid: false,
        terminate: false,
        error: None,
    }
}

/// An effect that asks nothing and reports `e`: the attempted transition was
/// abandoned and the session keeps its prior state.
pub open spec fn failure_effect(e: DaemonError) -> EffectV {
    EffectV { error: Some(e), ..noop_effect() }
}

/// The state machine: what one command does to a session, given whether the
/// track it names could be opened. Commands that open nothing ignore
/// `open_ok`.
pub open spec fn apply_spec(s: SessionV, cmd: CommandV, open_ok: bool) -> (SessionV, EffectV) {
    match cmd {
        CommandV::Append => match s.track {
            Some(t) => if open_ok {
                (
                    SessionV { state: PlayState::Playing, ..s },
                    EffectV {
                        action: ActionV::EnqueuePlay(t),
                        record: RecordV::Write(t),
                        ..noop_effect()
                    },
                )
            } else {
                (s, failure_effect(DaemonError::PlaybackError))
            },
            None => (s, failure_effect(DaemonError::PlaybackError)),
        },
        CommandV::ChangeTrack(p) => if open_ok {
            (
                SessionV { track: Some(p), loop_mode: false, state: PlayState::Playing },
                EffectV {
                    action: ActionV::StopClearEnqueue(p),
                    record: RecordV::Write(p),
                    ..noop_effect()
                },
            )
        } else {
            (s, failure_effect(DaemonError::PlaybackError))
        },
        CommandV::TogglePlay => if s.state == PlayState::Playing {
            (
                SessionV { state: PlayState::Paused, ..s },
                EffectV { action: ActionV::Pause, ..noop_effect() },
            )
        } else if s.state == PlayState::Paused {
            (
                SessionV { state: PlayState::Playing, ..s },
                EffectV { action: ActionV::Resume, ..noop_effect() },
            )
        } else {
            (s, noop_effect())
        },
        CommandV::MakeInfinite => match s.track {
            Some(t) => if open_ok {
                (
                    SessionV { loop_mode: true, ..s },
                    EffectV { action: ActionV::EnqueueInfinite(t), ..noop_effect() },
                )
            } else {
                (s, failure_effect(DaemonError::PlaybackError))
            },
            None => (s, failure_effect(DaemonError::PlaybackError)),
        },
        CommandV::Stop => (
            SessionV { track: None, loop_mode: false, state: PlayState::Stopped },
            EffectV {
                action: ActionV::StopPlayer,
                record: RecordV::Clear,
                ..noop_effect()
            },
        ),
        CommandV::Kill => (
            SessionV { track: None, loop_mode: false, state: PlayState::Terminated },
            EffectV {
                action: ActionV::StopPlayer,
                record: RecordV::Clear,
                remove_channel: true,
                remove_pid: true,
                terminate: true,
                error: None,
            },
        ),
        CommandV::Unknown => (s, failure_effect(DaemonError::UnknownCommand)),
    }
}

/// What the bootstrap does: with a track at hand that opens, the session
/// moves `Idle -> Loaded -> Playing` and the now-playing record is set; with
/// no track, nothing happens; with a track that fails to open, the session
/// stays idle and the failure is reported.
pub open spec fn bootstrap_spec(s: SessionV, open_ok: bool) -> (SessionV, EffectV) {
    match s.track {
        None => (s, noop_effect()),
        Some(t) => if open_ok {
            (
                SessionV { state: PlayState::Playing, ..s },
                EffectV {
                    action: ActionV::EnqueuePlay(t),
                    record: RecordV::Write(t),
                    ..noop_effect()
                },
            )
        } else {
            (s, failure_effect(DaemonError::PlaybackError))
        },
    }
}

/// One whole accept-loop iteration: decode the delivered bytes, then apply
/// the command. A zero-byte read changes nothing and is reported as a
/// protocol error local to that connection.
pub open spec fn step_spec(s: SessionV, buf: Seq<u8>, open_ok: bool) -> (SessionV, EffectV) {
    match decode_spec(buf) {
        Err(e) => (s, failure_effect(e)),
        Ok(cv) => apply_spec(s, cv, open_ok),
    }
}

impl AudioManager {
    /// A fresh session holding the initial track, if one was supplied; the
    /// player is idle and nothing is queued.
    pub fn new(track: String) -> (am: AudioManager)
        ensures
            am@.state == PlayState::Idle,
            am@.loop_mode == false,
            track@.len() == 0 ==> am@.track is None,
            track@.len() > 0 ==> am@.track == Some(track@),
            am@.wf(),
    {
        let track_opt = if track.as_str().is_empty() {
            None
        } else {
            Some(track)
        };
        AudioManager { track: track_opt, loop_mode: false, state: PlayState::Idle }
    }

    /// Whether the player's queue is empty.
    pub fn get_status(am: &Self) -> (idle: bool)
        ensures
            idle == am@.queue_empty(),
    {
        match am.state {
            PlayState::Loaded => false,
            PlayState::Playing => false,
            PlayState::Paused => false,
            _ => true,
        }
    }

    /// Move an idle session with a track to `Loaded`, the track's source
    /// queued but not yet started. Reports the failure when the track does
    /// not open.
    pub fn load_initial(&mut self, open_ok: bool) -> (r: Option<DaemonError>)
        requires
            old(self)@.state == PlayState::Idle,
        ensures
            old(self)@.track is Some && open_ok ==> final(self)@ == (SessionV {
                state: PlayState::Loaded,
                ..old(self)@
            }) && r is None,
            old(self)@.track is Some && !open_ok ==> final(self)@ == old(self)@ && r == Some(
                DaemonError::PlaybackError,
            ),
            old(self)@.track is None ==> final(self)@ == old(self)@ && r is None,
    {
        match &self.track {
            Some(_) => {
                if open_ok {
                    self.state = PlayState::Loaded;
                    None
                } else {
                    Some(DaemonError::PlaybackError)
                }
            },
            None => None,
        }
    }

    /// Start playback of a loaded track.
    pub fn begin_playback(&mut self) -> (rec: RecordUpdate)
        requires
            old(self)@.state == PlayState::Loaded,
            old(self)@.wf(),
        ensures
            final(self)@ == (SessionV { state: PlayState::Playing, ..old(self)@ }),
            rec@ == RecordV::Write(old(self)@.track->Some_0),
    {
        self.state = PlayState::Playing;
        let t = match &self.track {
            Some(t) => t.clone(),
            None => String::new(),
        };
        RecordUpdate::Write(t)
    }

    /// The unconditional bootstrap transition: load the initial track, if
    /// any, and start playing it before the accept loop begins.
    pub fn bootstrap(&mut self, open_ok: bool) -> (eff: CommandEffect)
        requires
            old(self)@.state == PlayState::Idle,
        ensures
            final(self)@ == bootstrap_spec(old(self)@, open_ok).0,
            eff@ == bootstrap_spec(old(self)@, open_ok).1,
            final(self)@.wf(),
    {
        let has_track = self.track.is_some();
        let err = self.load_initial(open_ok);
        if has_track && err.is_none() {
            let rec = self.begin_playback();
            let t = match &rec {
                RecordUpdate::Write(t) => t.clone(),
                _ => String::new(),
            };
            CommandEffect {
                action: PlayerAction::EnqueuePlay(t),
                record: rec,
                remove_channel: false,
                remove_pid: false,
                terminate: false,
                error: None,
            }
        } else {
            CommandEffect {
                action: PlayerAction::Nothing,
                record: RecordUpdate::Keep,
                remove_channel: false,
                remove_pid: false,
                terminate: false,
                error: err,
            }
        }
    }

    /// Apply one decoded command: the single state transition of one accept-
    /// loop iteration, with the work it leaves to the application.
    pub fn apply_command(&mut self, cmd: Command, open_ok: bool) -> (eff: CommandEffect)
        ensures
            final(self)@ == apply_spec(old(self)@, cmd@, open_ok).0,
            eff@ == apply_spec(old(self)@, cmd@, open_ok).1,
    {
        match cmd {
            Command::Append => {
                let track = match &self.track {
                    Some(t) => Some(t.clone()),
                    None => None,
                };
                match track {
                    Some(t) if open_ok => {
                        self.state = PlayState::Playing;
                        CommandEffect {
                            action: PlayerAction::EnqueuePlay(t.clone()),
                            record: RecordUpdate::Write(t),
                            remove_channel: false,
                            remove_pid: false,
                            terminate: false,
                            error: None,
                        }
                    },
                    _ => self.failure(DaemonError::PlaybackError),
                }
            },
            Command::ChangeTrack(p) => {
                if open_ok {
                    self.track = Some(p.clone());
                    self.loop_mode = false;
                    self.state = PlayState::Playing;
                    CommandEffect {
                        action: PlayerAction::StopClearEnqueue(p.clone()),
                        record: RecordUpdate::Write(p),
                        remove_channel: false,
                        remove_pid: false,
                        terminate: false,
                        error: None,
                    }
                } else {
                    self.failure(DaemonError::PlaybackError)
                }
            },
            Command::TogglePlay => {
                match self.state {
                    PlayState::Playing => {
                        self.state = PlayState::Paused;
                        CommandEffect {
                            action: PlayerAction::Pause,
                            record: RecordUpdate::Keep,
                            remove_channel: false,
                            remove_pid: false,
                            terminate: false,
                            error: None,
                        }
                    },
                    PlayState::Paused => {
                        self.state = PlayState::Playing;
                        CommandEffect {
                            action: PlayerAction::Resume,
                            record: RecordUpdate::Keep,
                            remove_channel: false,
                            remove_pid: false,
                            terminate: false,
                            error: None,
                        }
                    },
                    _ => CommandEffect {
                        action: PlayerAction::Nothing,
                        record: RecordUpdate::Keep,
                        remove_channel: false,
                        remove_pid: false,
                        terminate: false,
                        error: None,
                    },
                }
            },
            Command::MakeInfinite => {
                let track = match &self.track {
                    Some(t) => Some(t.clone()),
                    None => None,
                };
                match track {
                    Some(t) if open_ok => {
                        self.loop_mode = true;
                        CommandEffect {
                            action: PlayerAction::EnqueueInfinite(t),
                            record: RecordUpdate::Keep,
                            remove_channel: false,
                            remove_pid: false,
                            terminate: false,
                            error: None,
                        }
                    },
                    _ => self.failure(DaemonError::PlaybackError),
                }
            },
            Command::Stop => {
                self.track = None;
                self.loop_mode = false;
                self.state = PlayState::Stopped;
                CommandEffect {
                    action: PlayerAction::StopPlayer,
                    record: RecordUpdate::Clear,
                    remove_channel: false,
                    remove_pid: false,
                    terminate: false,
                    error: None,
                }
            },
            Command::Kill => {
                self.track = None;
                self.loop_mode = false;
                self.state = PlayState::Terminated;
                CommandEffect {
                    action: PlayerAction::StopPlayer,
                    record: RecordUpdate::Clear,
                    remove_channel: true,
                    remove_pid: true,
                    terminate: true,
                    error: None,
                }
            },
            Command::Unknown => self.failure(DaemonError::UnknownCommand),
        }
    }

    /// Report a failed command: the session is untouched.
    fn failure(&mut self, e: DaemonError) -> (eff: CommandEffect)
        ensures
            final(self)@ == old(self)@,
            eff@ == failure_effect(e),
    {
        CommandEffect {
            action: PlayerAction::Nothing,
            record: RecordUpdate::Keep,
            remove_channel: false,
            remove_pid: false,
            terminate: false,
            error: Some(e),
        }
    }

    /// The track the next command would try to open, if it opens one: the
    /// session's own track for `append` and `make_infinite`, the carried
    /// path for `change_track`.
    pub fn path_to_open(&self, cmd: &Command) -> (r: Option<String>)
        ensures
            match cmd@ {
                CommandV::Append | CommandV::MakeInfinite => r.deep_view() == self@.track,
                CommandV::ChangeTrack(p) => r.deep_view() == Some::<Seq<char>>(p),
                _ => r is None,
            },
    {
        match cmd {
            Command::Append | Command::MakeInfinite => match &self.track {
                Some(t) => Some(t.clone()),
                None => None,
            },
            Command::ChangeTrack(p) => Some(p.clone()),
            _ => None,
        }
    }

    /// Handle the bytes delivered by one connection: decode them and apply
    /// the single transition they call for. `open_ok` reports whether the
    /// track the message names (see [`Self::path_to_open`]) could be opened.
    pub fn handle_message(&mut self, buf: &[u8], open_ok: bool) -> (eff: CommandEffect)
        ensures
            final(self)@ == step_spec(old(self)@, buf@, open_ok).0,
            eff@ == step_spec(old(self)@, buf@, open_ok).1,
    {
        match decode_message(buf) {
            Err(e) => self.failure(e),
            Ok(cmd) => self.apply_command(cmd, open_ok),
        }
    }
}

/// Every transition preserves the session invariant: whenever a source is
/// loaded, playing or paused, the session knows its track.
pub proof fn lemma_apply_preserves_wf(s: SessionV, cmd: CommandV, open_ok: bool)
    requires
        s.wf(),
    ensures
        apply_spec(s, cmd, open_ok).0.wf(),
        bootstrap_spec(s, open_ok).0.wf(),
{
}

} // verus!
