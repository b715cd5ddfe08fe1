use playmectl::dispatch::{dispatch, Args, ClientPlan};
use playmectl::errors::DaemonError;

fn args(title: &str, command: u8, view: bool) -> Args {
    Args { title: String::from(title), command, view }
}

#[test]
fn view_bypasses_the_channel() {
    assert_eq!(
        dispatch(&args("", 0, true), false, false),
        Ok(ClientPlan::View)
    );
    assert_eq!(
        dispatch(&args("/a.mp3", 2, true), true, true),
        Ok(ClientPlan::View)
    );
}

#[test]
fn connectable_channel_makes_a_control_client() {
    assert_eq!(
        dispatch(&args("", 1, false), true, true),
        Ok(ClientPlan::Send(String::from("toggle_play")))
    );
    assert_eq!(
        dispatch(&args("/music/b.mp3", 4, false), true, true),
        Ok(ClientPlan::Send(String::from("change_track /music/b.mp3")))
    );
}

#[test]
fn unknown_command_number_is_reported() {
    assert_eq!(
        dispatch(&args("", 9, false), true, true),
        Err(DaemonError::UnknownCommand)
    );
}

#[test]
fn refused_connection_is_daemon_unreachable() {
    assert_eq!(
        dispatch(&args("", 1, false), true, false),
        Err(DaemonError::DaemonUnreachable)
    );
}

#[test]
fn no_channel_and_a_track_bootstraps() {
    assert_eq!(
        dispatch(&args("/music/a.mp3", 0, false), false, false),
        Ok(ClientPlan::Bootstrap(String::from("/music/a.mp3")))
    );
}

#[test]
fn no_channel_and_no_track_is_a_usage_error() {
    assert_eq!(dispatch(&args("", 0, false), false, false), Ok(ClientPlan::Usage));
}
