use playmectl::protocol::{decode_message, encode_command, parse_command, trim_spaces, Command};
use playmectl::errors::DaemonError;

#[test]
fn trim_strips_both_ends() {
    assert_eq!(trim_spaces("  toggle_play\n"), "toggle_play");
    assert_eq!(trim_spaces("\r\n\t "), "");
    assert_eq!(trim_spaces("kill"), "kill");
    assert_eq!(trim_spaces(""), "");
}

#[test]
fn parse_recognizes_every_command() {
    assert_eq!(parse_command("append"), Command::Append);
    assert_eq!(parse_command("toggle_play"), Command::TogglePlay);
    assert_eq!(parse_command("make_infinite"), Command::MakeInfinite);
    assert_eq!(parse_command("loop"), Command::MakeInfinite);
    assert_eq!(parse_command("stop"), Command::Stop);
    assert_eq!(parse_command("kill"), Command::Kill);
    assert_eq!(
        parse_command("change_track /music/b.mp3"),
        Command::ChangeTrack(String::from("/music/b.mp3"))
    );
}

#[test]
fn parse_trims_before_matching() {
    assert_eq!(parse_command(" stop\n"), Command::Stop);
    assert_eq!(parse_command("\ttoggle_play \r\n"), Command::TogglePlay);
}

#[test]
fn parse_rejects_unrecognized_text() {
    assert_eq!(parse_command("play"), Command::Unknown);
    assert_eq!(parse_command(""), Command::Unknown);
    assert_eq!(parse_command("change_track"), Command::Unknown);
    assert_eq!(parse_command("CHANGE_TRACK /a"), Command::Unknown);
}

#[test]
fn change_track_takes_the_rest_verbatim() {
    assert_eq!(
        parse_command("change_track /a dir/with spaces.mp3"),
        Command::ChangeTrack(String::from("/a dir/with spaces.mp3"))
    );
    // the trailing newline of the wire message is trimmed, inner spaces stay
    assert_eq!(
        parse_command("change_track  /x.mp3\n"),
        Command::ChangeTrack(String::from(" /x.mp3"))
    );
    // the bare prefix with nothing after it ends in a space, which trimming
    // removes, so it matches no command
    assert_eq!(parse_command("change_track "), Command::Unknown);
}

#[test]
fn decode_empty_read_is_a_protocol_error() {
    assert_eq!(decode_message(&[]), Err(DaemonError::ProtocolError));
}

#[test]
fn decode_parses_delivered_bytes() {
    assert_eq!(decode_message(b"stop"), Ok(Command::Stop));
    assert_eq!(decode_message(b"kill\n"), Ok(Command::Kill));
    assert_eq!(
        decode_message(b"change_track /music/b.mp3"),
        Ok(Command::ChangeTrack(String::from("/music/b.mp3")))
    );
}

#[test]
fn decode_substitutes_invalid_utf8_instead_of_rejecting() {
    // an invalid byte inside a command makes it unrecognized, not fatal
    assert_eq!(decode_message(b"st\xffop"), Ok(Command::Unknown));
    // a valid multi-byte path survives the lossy decoding intact
    assert_eq!(
        decode_message("change_track /m\u{fc}sic/a.mp3".as_bytes()),
        Ok(Command::ChangeTrack(String::from("/m\u{fc}sic/a.mp3")))
    );
}

#[test]
fn encode_maps_numbers_onto_the_wire_set() {
    assert_eq!(encode_command(0, ""), Some(String::from("append")));
    assert_eq!(encode_command(1, ""), Some(String::from("toggle_play")));
    assert_eq!(encode_command(2, ""), Some(String::from("stop")));
    assert_eq!(encode_command(3, ""), Some(String::from("make_infinite")));
    assert_eq!(
        encode_command(4, "/music/a.mp3"),
        Some(String::from("change_track /music/a.mp3"))
    );
    assert_eq!(encode_command(5, ""), Some(String::from("kill")));
    assert_eq!(encode_command(6, ""), None);
    assert_eq!(encode_command(255, "/a"), None);
}

#[test]
fn encode_then_parse_round_trips() {
    for n in 0u8..=5u8 {
        let wire = encode_command(n, "/music/a.mp3").unwrap();
        let parsed = parse_command(&wire);
        assert_ne!(parsed, Command::Unknown, "command {} did not round-trip", n);
    }
    let wire = encode_command(4, "/music/a.mp3").unwrap();
    assert_eq!(
        parse_command(&wire),
        Command::ChangeTrack(String::from("/music/a.mp3"))
    );
}
