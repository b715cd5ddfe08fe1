use playmectl::errors::DaemonError;
use playmectl::paths::DirData;
use playmectl::store::{get_currently_playing, update_currently_playing, view_message};

#[test]
fn record_is_the_path_and_a_newline() {
    assert_eq!(update_currently_playing("/music/a.mp3"), "/music/a.mp3\n");
    assert_eq!(update_currently_playing(""), "\n");
}

#[test]
fn store_round_trip_returns_the_file_name() {
    let written = update_currently_playing("/music/a.mp3");
    let read = get_currently_playing(&Some(written));
    assert_eq!(read, Some(String::from("a.mp3")));
}

#[test]
fn store_round_trip_of_nothing_playing() {
    let written = update_currently_playing("");
    assert_eq!(get_currently_playing(&Some(written)), None);
    assert_eq!(get_currently_playing(&None), None);
}

#[test]
fn reader_reports_the_name_not_the_path() {
    assert_eq!(
        get_currently_playing(&Some(String::from("/very/long/path/to/track.flac\n"))),
        Some(String::from("track.flac"))
    );
    // a bare name is its own file name
    assert_eq!(
        get_currently_playing(&Some(String::from("track.flac"))),
        Some(String::from("track.flac"))
    );
}

#[test]
fn reader_trims_and_handles_odd_records() {
    assert_eq!(
        get_currently_playing(&Some(String::from("  /a/b.mp3 \r\n"))),
        Some(String::from("b.mp3"))
    );
    // a path with no file-name component reads as nothing playing
    assert_eq!(get_currently_playing(&Some(String::from("/music/\n"))), None);
    assert_eq!(get_currently_playing(&Some(String::from("   \n"))), None);
}

#[test]
fn view_message_formats_both_outcomes() {
    assert_eq!(
        view_message(&Some(String::from("a.mp3"))),
        "Currently playing: a.mp3"
    );
    assert_eq!(view_message(&None), "Nothing is currently playing.");
    assert_eq!(
        view_message(&Some(String::new())),
        "Nothing is currently playing."
    );
}

#[test]
fn paths_derive_from_the_home_directory() {
    let dirs = DirData::new(Some("/home/user")).unwrap();
    assert_eq!(dirs.playmedir, "/home/user/.local/share/playmectl/");
    assert_eq!(
        dirs.socket_path,
        "/home/user/.local/share/playmectl/playme.socket"
    );
    assert_eq!(
        dirs.state_file,
        "/home/user/.local/share/playmectl/currently_playing.txt"
    );
    assert_eq!(
        dirs.pid_file,
        "/home/user/.local/share/playmectl/playmectl.pid"
    );
}

#[test]
fn missing_home_is_a_configuration_error() {
    match DirData::new(None) {
        Err(e) => assert_eq!(e, DaemonError::ConfigurationError),
        Ok(_) => panic!("expected a configuration error"),
    }
}
