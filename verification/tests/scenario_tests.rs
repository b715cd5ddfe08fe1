//! The end-to-end scenario: bootstrap, query, change the track, query, stop,
//! query, kill, and find the daemon unreachable afterwards. The file system
//! is played by a single variable holding the record's contents, written and
//! read exactly as the daemon and the status client would.

use playmectl::dispatch::{dispatch, Args, ClientPlan};
use playmectl::errors::DaemonError;
use playmectl::protocol::decode_message;
use playmectl::session::{AudioManager, PlayState, RecordUpdate};
use playmectl::store::{get_currently_playing, update_currently_playing, view_message};

struct FakeStore {
    contents: Option<String>,
}

impl FakeStore {
    fn apply(&mut self, update: RecordUpdate) {
        match update {
            RecordUpdate::Keep => {}
            RecordUpdate::Write(track) => {
                self.contents = Some(update_currently_playing(&track));
            }
            RecordUpdate::Clear => {
                self.contents = Some(update_currently_playing(""));
            }
        }
    }

    fn view(&self) -> String {
        view_message(&get_currently_playing(&self.contents))
    }
}

#[test]
fn daemon_lifecycle_scenario() {
    let mut store = FakeStore { contents: None };

    // before any daemon ran, a view reports nothing playing
    assert_eq!(store.view(), "Nothing is currently playing.");

    // bootstrap with /music/a.mp3
    let mut am = AudioManager::new(String::from("/music/a.mp3"));
    let eff = am.bootstrap(true);
    store.apply(eff.record);
    assert_eq!(am.state, PlayState::Playing);
    assert_eq!(store.view(), "Currently playing: a.mp3");

    // change_track /music/b.mp3
    let cmd = decode_message(b"change_track /music/b.mp3").unwrap();
    let path = am.path_to_open(&cmd);
    assert_eq!(path, Some(String::from("/music/b.mp3")));
    let eff = am.handle_message(b"change_track /music/b.mp3", true);
    store.apply(eff.record);
    assert_eq!(am.track, Some(String::from("/music/b.mp3")));
    assert_eq!(store.view(), "Currently playing: b.mp3");

    // stop
    let eff = am.handle_message(b"stop", false);
    store.apply(eff.record);
    assert!(!eff.terminate);
    assert_eq!(store.view(), "Nothing is currently playing.");

    // kill: the channel file goes away and the loop ends
    let eff = am.handle_message(b"kill", false);
    store.apply(eff.record);
    assert!(eff.terminate);
    assert!(eff.remove_channel);
    assert_eq!(am.state, PlayState::Terminated);

    // a later command send finds no channel and no track: usage error
    let plan = dispatch(&Args { title: String::new(), command: 1, view: false }, false, false);
    assert_eq!(plan, Ok(ClientPlan::Usage));

    // one that still sees a stale channel file but is refused reports the
    // daemon unreachable
    let plan = dispatch(&Args { title: String::new(), command: 1, view: false }, true, false);
    assert_eq!(plan, Err(DaemonError::DaemonUnreachable));

    // and a fresh bootstrap with a track succeeds
    let plan = dispatch(
        &Args { title: String::from("/music/c.mp3"), command: 0, view: false },
        false,
        false,
    );
    assert_eq!(plan, Ok(ClientPlan::Bootstrap(String::from("/music/c.mp3"))));
}
