//! The properties the library promises across its components, each proved
//! over the spec functions that the executable functions are verified
//! against.

use vstd::prelude::*;
use crate::errors::DaemonError;
use crate::protocol::{
    CommandV, parse_spec, wire_spec, known_command, trim_spec, is_space_char, is_change_track,
    change_track_path, lemma_trim_id, lemma_trim_appended_space,
};
use crate::session::{SessionV, PlayState, RecordV, apply_spec, bootstrap_spec, step_spec};
use crate::store::{record_of, file_name_spec, get_spec, view_message_spec, lemma_file_name_no_slash};
use crate::dispatch::{ArgsV, PlanV, dispatch_spec};

verus! {

/// A track's record trims back to the track itself: writing `t` and reading
/// the file recovers `t` before the file-name step.
proof fn lemma_record_trims_back(t: Seq<char>)
    requires
        t.len() > 0,
        !is_space_char(t[0]),
        !is_space_char(t.last()),
    ensures
        trim_spec(record_of(t)) == t,
{
    reveal_strlit("\n");
    assert(record_of(t) =~= t.push('\n'));
    lemma_trim_appended_space(t, '\n');
}

/// Bootstrapping with a track `t` that opens starts playback, and a status
/// query then reports `t`'s file name, never its full path.
pub proof fn lemma_bootstrap_then_view_reports_file_name(s: SessionV, t: Seq<char>)
    requires
        s.state == PlayState::Idle,
        s.track == Some(t),
        t.len() > 0,
        !is_space_char(t[0]),
        !is_space_char(t.last()),
        file_name_spec(t).len() > 0,
    ensures
        bootstrap_spec(s, true).0.state == PlayState::Playing,
        bootstrap_spec(s, true).1.record == RecordV::Write(t),
        get_spec(Some(record_of(t))) == Some(file_name_spec(t)),
        view_message_spec(get_spec(Some(record_of(t)))) == "Currently playing: "@ + file_name_spec(
            t,
        ),
        t.contains('/') ==> file_name_spec(t) != t,
{
    lemma_record_trims_back(t);
    lemma_file_name_no_slash(t);
    if t.contains('/') {
        let k = choose|k: int| 0 <= k < t.len() && t[k] == '/';
        assert(file_name_spec(t)[k] != '/' || !(0 <= k < file_name_spec(t).len()));
    }
}

/// `toggle_play` strictly alternates the playing/paused flag: the bootstrap
/// leaves the session playing, one toggle from `Playing` pauses, one toggle
/// from `Paused` resumes, and two toggles return the session unchanged.
pub proof fn lemma_toggle_play_alternates(s: SessionV, ok1: bool, ok2: bool)
    ensures
        s.state == PlayState::Idle && s.track is Some ==> bootstrap_spec(s, true).0.state
            == PlayState::Playing,
        s.state == PlayState::Playing ==> apply_spec(s, CommandV::TogglePlay, ok1).0.state
            == PlayState::Paused,
        s.state == PlayState::Paused ==> apply_spec(s, CommandV::TogglePlay, ok1).0.state
            == PlayState::Playing,
        s.state == PlayState::Playing || s.state == PlayState::Paused ==> apply_spec(
            apply_spec(s, CommandV::TogglePlay, ok1).0,
            CommandV::TogglePlay,
            ok2,
        ).0 == s,
{
}

/// The session after `k` consecutive `toggle_play` commands; the command
/// opens no track, so the open outcome does not matter.
pub open spec fn after_toggles(s: SessionV, k: nat) -> SessionV
    decreases k,
{
    if k == 0 {
        s
    } else {
        apply_spec(after_toggles(s, (k - 1) as nat), CommandV::TogglePlay, true).0
    }
}

/// Over any sequence of `toggle_play` commands the playing/paused flag
/// strictly alternates: an even number of toggles restores the session, an
/// odd number leaves it on the other side, and nothing else changes.
pub proof fn lemma_toggle_play_sequence(s: SessionV, k: nat)
    requires
        s.state == PlayState::Playing || s.state == PlayState::Paused,
    ensures
        k % 2 == 0 ==> after_toggles(s, k) == s,
        k % 2 == 1 && s.state == PlayState::Playing ==> after_toggles(s, k) == (SessionV {
            state: PlayState::Paused,
            ..s
        }),
        k % 2 == 1 && s.state == PlayState::Paused ==> after_toggles(s, k) == (SessionV {
            state: PlayState::Playing,
            ..s
        }),
    decreases k,
{
    if k > 0 {
        lemma_toggle_play_sequence(s, (k - 1) as nat);
    }
}

/// `stop` clears the now-playing record from any state, and a status query
/// then reports that nothing is playing.
pub proof fn lemma_stop_clears_now_playing(s: SessionV, open_ok: bool)
    ensures
        apply_spec(s, CommandV::Stop, open_ok).0.state == PlayState::Stopped,
        apply_spec(s, CommandV::Stop, open_ok).0.track is None,
        apply_spec(s, CommandV::Stop, open_ok).1.record == RecordV::Clear,
        get_spec(Some(record_of(Seq::empty()))) is None,
        view_message_spec(get_spec(Some(record_of(Seq::empty()))))
            == "Nothing is currently playing."@,
{
    reveal_strlit("\n");
    let rec = record_of(Seq::empty());
    assert(rec =~= "\n"@);
    assert(is_space_char(rec[0]));
    assert(trim_spec(rec).len() == 0) by {
        assert(crate::protocol::trim_start_spec(rec) == crate::protocol::trim_start_spec(
            rec.skip(1),
        ));
        assert(rec.skip(1) =~= Seq::<char>::empty());
    }
}

/// `kill` tears the daemon down: the player stops, the record is cleared,
/// the channel and PID files are removed and the accept loop ends. A client
/// that afterwards still sees a channel file but is refused reports the
/// daemon unreachable; one that finds no channel and carries a track
/// bootstraps a fresh daemon.
pub proof fn lemma_kill_tears_down(s: SessionV, a: ArgsV, open_ok: bool)
    ensures
        apply_spec(s, CommandV::Kill, open_ok).0.state == PlayState::Terminated,
        apply_spec(s, CommandV::Kill, open_ok).1.remove_channel,
        apply_spec(s, CommandV::Kill, open_ok).1.remove_pid,
        apply_spec(s, CommandV::Kill, open_ok).1.terminate,
        apply_spec(s, CommandV::Kill, open_ok).1.record == RecordV::Clear,
        !a.view ==> dispatch_spec(a, true, false) == Err::<PlanV, DaemonError>(
            DaemonError::DaemonUnreachable,
        ),
        !a.view && a.title.len() > 0 ==> dispatch_spec(a, false, false) == Ok::<
            PlanV,
            DaemonError,
        >(PlanV::Bootstrap(a.title)),
{
}

/// A connection that closes without sending a byte leaves the session
/// unchanged and does not end the accept loop; it is reported as a protocol
/// error local to that connection.
pub proof fn lemma_empty_message_is_harmless(s: SessionV, open_ok: bool)
    ensures
        step_spec(s, Seq::empty(), open_ok).0 == s,
        step_spec(s, Seq::empty(), open_ok).1.error == Some(DaemonError::ProtocolError),
        !step_spec(s, Seq::empty(), open_ok).1.terminate,
        step_spec(s, Seq::empty(), open_ok).1.action is Nothing,
        step_spec(s, Seq::empty(), open_ok).1.record is Keep,
{
}

/// `change_track` with a path that opens updates both the in-memory track
/// and the now-playing record, whose readers then report the new path's file
/// name; with a path that does not open, both are left unchanged and the
/// failure is reported.
pub proof fn lemma_change_track_updates_or_preserves(s: SessionV, p: Seq<char>)
    ensures
        apply_spec(s, CommandV::ChangeTrack(p), true).0.track == Some(p),
        apply_spec(s, CommandV::ChangeTrack(p), true).0.state == PlayState::Playing,
        apply_spec(s, CommandV::ChangeTrack(p), true).1.record == RecordV::Write(p),
        (p.len() > 0 && !is_space_char(p[0]) && !is_space_char(p.last()) && file_name_spec(p).len()
            > 0) ==> get_spec(Some(record_of(p))) == Some(file_name_spec(p)),
        apply_spec(s, CommandV::ChangeTrack(p), false).0 == s,
        apply_spec(s, CommandV::ChangeTrack(p), false).1.error == Some(DaemonError::PlaybackError),
        apply_spec(s, CommandV::ChangeTrack(p), false).1.record is Keep,
{
    if p.len() > 0 && !is_space_char(p[0]) && !is_space_char(p.last()) {
        lemma_record_trims_back(p);
    }
}

/// The store round trip: writing a track's record and reading it back yields
/// the track's file name; writing the empty record, or never having written,
/// reads back as nothing playing.
pub proof fn lemma_store_round_trip(t: Seq<char>)
    requires
        t.len() > 0,
        !is_space_char(t[0]),
        !is_space_char(t.last()),
    ensures
        file_name_spec(t).len() > 0 ==> get_spec(Some(record_of(t))) == Some(file_name_spec(t)),
        get_spec(Some(record_of(Seq::empty()))) is None,
        get_spec(None) is None,
{
    lemma_record_trims_back(t);
    lemma_stop_clears_now_playing(
        SessionV { track: None, loop_mode: false, state: PlayState::Idle },
        true,
    );
}

/// Errors are contained: whenever one accept-loop step reports an error, the
/// session is exactly as it was and the loop goes on; only the `kill`
/// command ends it or removes the channel.
pub proof fn lemma_errors_never_escalate(s: SessionV, buf: Seq<u8>, open_ok: bool)
    ensures
        step_spec(s, buf, open_ok).1.error is Some ==> step_spec(s, buf, open_ok).0 == s,
        step_spec(s, buf, open_ok).1.error is Some ==> !step_spec(s, buf, open_ok).1.terminate,
        step_spec(s, buf, open_ok).1.terminate <==> crate::protocol::decode_spec(buf) == Ok::<
            CommandV,
            DaemonError,
        >(CommandV::Kill),
        step_spec(s, buf, open_ok).1.remove_channel <==> step_spec(s, buf, open_ok).1.terminate,
{
}

/// The now-playing record follows the session's track: a step that writes
/// the record writes the track the session now holds, and one that clears it
/// leaves the session with no track.
pub proof fn lemma_record_matches_track(s: SessionV, cmd: CommandV, open_ok: bool)
    ensures
        forall|t: Seq<char>|
            apply_spec(s, cmd, open_ok).1.record == RecordV::Write(t) ==> apply_spec(
                s,
                cmd,
                open_ok,
            ).0.track == Some(t),
        apply_spec(s, cmd, open_ok).1.record is Clear ==> apply_spec(s, cmd, open_ok).0.track
            is None,
{
}

/// The client's wire encoding and the daemon's parser agree: every known
/// command number round-trips to the command the daemon applies, with
/// `change_track` carrying its title verbatim.
pub proof fn lemma_encode_parse_round_trip(n: u8, title: Seq<char>)
    requires
        known_command(n),
        n == 4 ==> title.len() > 0 && !is_space_char(title.last()),
    ensures
        n == 0 ==> parse_spec(wire_spec(n, title)) == CommandV::Append,
        n == 1 ==> parse_spec(wire_spec(n, title)) == CommandV::TogglePlay,
        n == 2 ==> parse_spec(wire_spec(n, title)) == CommandV::Stop,
        n == 3 ==> parse_spec(wire_spec(n, title)) == CommandV::MakeInfinite,
        n == 4 ==> parse_spec(wire_spec(n, title)) == CommandV::ChangeTrack(title),
        n == 5 ==> parse_spec(wire_spec(n, title)) == CommandV::Kill,
{
    reveal_strlit("append");
    reveal_strlit("toggle_play");
    reveal_strlit("make_infinite");
    reveal_strlit("loop");
    reveal_strlit("stop");
    reveal_strlit("kill");
    reveal_strlit("change_track ");
    if n == 0 {
        lemma_trim_id("append"@);
    } else if n == 1 {
        lemma_trim_id("toggle_play"@);
    } else if n == 2 {
        lemma_trim_id("stop"@);
    } else if n == 3 {
        lemma_trim_id("make_infinite"@);
    } else if n == 4 {
        let w = "change_track "@ + title;
        assert(w[0] == 'c');
        assert(w.last() == title.last());
        lemma_trim_id(w);
        assert(is_change_track(w)) by {
            assert(w.subrange(0, 13) =~= "change_track "@);
        }
        assert(change_track_path(w) =~= title);
    } else {
        lemma_trim_id("kill"@);
    }
}

} // verus!
