//! The one-shot command protocol: a single short text message per connection,
//! trimmed of surrounding whitespace, matched against a closed set of
//! commands. `change_track` carries its argument as the remainder of the
//! message after the fixed prefix, verbatim.

use vstd::prelude::*;
use vstd::string::*;
use crate::errors::DaemonError;

verus! {

/// The closed set of recognized commands; unrecognized text maps to
/// `Unknown`, which is reported but never terminates the session.
#[derive(Debug, PartialEq)]
pub enum Command {
    Append,
    ChangeTrack(String),
    TogglePlay,
    MakeInfinite,
    Stop,
    Kill,
    Unknown,
}

/// The mathematical shape of a command: the `ChangeTrack` payload is the
/// character sequence carried on the wire.
pub enum CommandV {
    Append,
    ChangeTrack(Seq<char>),
    TogglePlay,
    MakeInfinite,
    Stop,
    Kill,
    Unknown,
}

impl View for Command {
    type V = CommandV;

    open spec fn view(&self) -> CommandV {
        match self {
            Command::Append => CommandV::Append,
            Command::ChangeTrack(p) => CommandV::ChangeTrack(p@),
            Command::TogglePlay => CommandV::TogglePlay,
            Command::MakeInfinite => CommandV::MakeInfinite,
            Command::Stop => CommandV::Stop,
            Command::Kill => CommandV::Kill,
            Command::Unknown => CommandV::Unknown,
        }
    }
}

/// The whitespace the protocol strips from both ends of a message.
pub open spec fn is_space_char(c: char) -> bool {
    c == ' ' || c == '\t' || c == '\n' || c == '\r'
}

pub open spec fn trim_start_spec(s: Seq<char>) -> Seq<char>
    decreases s.len(),
{
    if s.len() > 0 && is_space_char(s[0]) {
        trim_start_spec(s.skip(1))
    } else {
        s
    }
}

pub open spec fn trim_end_spec(s: Seq<char>) -> Seq<char>
    decreases s.len(),
{
    if s.len() > 0 && is_space_char(s.last()) {
        trim_end_spec(s.take(s.len() - 1))
    } else {
        s
    }
}

/// A message with whitespace stripped from both ends.
pub open spec fn trim_spec(s: Seq<char>) -> Seq<char> {
    trim_end_spec(trim_start_spec(s))
}

/// If the first `i` characters are whitespace and the `i`th is not (or the
/// sequence ends there), trimming the start drops exactly those `i`.
proof fn lemma_trim_start_at(s: Seq<char>, i: int)
    requires
        0 <= i <= s.len(),
        forall|k: int| 0 <= k < i ==> is_space_char(s[k]),
        i == s.len() || !is_space_char(s[i]),
    ensures
        trim_start_spec(s) == s.skip(i),
    decreases i,
{
    if i == 0 {
        assert(s.skip(0) =~= s);
    } else {
        lemma_trim_start_at(s.skip(1), i - 1);
        assert(s.skip(1).skip(i - 1) =~= s.skip(i));
    }
}

/// If everything from position `j` on is whitespace and the character before
/// `j` is not (or `j` is 0), trimming the end keeps exactly the first `j`.
proof fn lemma_trim_end_at(s: Seq<char>, j: int)
    requires
        0 <= j <= s.len(),
        forall|k: int| j <= k < s.len() ==> is_space_char(s[k]),
        j == 0 || !is_space_char(s[j - 1]),
    ensures
        trim_end_spec(s) == s.take(j),
    decreases s.len() - j,
{
    if j == s.len() {
        assert(s.take(j) =~= s);
    } else {
        lemma_trim_end_at(s.take(s.len() - 1), j);
        assert(s.take(s.len() - 1).take(j) =~= s.take(j));
    }
}

/// A sequence whose ends are not whitespace is left alone by trimming.
pub proof fn lemma_trim_id(s: Seq<char>)
    requires
        s.len() == 0 || (!is_space_char(s[0]) && !is_space_char(s.last())),
    ensures
        trim_spec(s) == s,
{
    lemma_trim_start_at(s, 0);
    assert(s.skip(0) =~= s);
    lemma_trim_end_at(s, s.len() as int);
    assert(s.take(s.len() as int) =~= s);
}

/// Appending one whitespace character to a sequence with clean ends trims
/// back to that sequence.
pub proof fn lemma_trim_appended_space(t: Seq<char>, c: char)
    requires
        t.len() > 0,
        !is_space_char(t[0]),
        !is_space_char(t.last()),
        is_space_char(c),
    ensures
        trim_spec(t.push(c)) == t,
{
    let m = t.push(c);
    lemma_trim_start_at(m, 0);
    assert(m.skip(0) =~= m);
    assert(m[t.len() as int - 1] == t.last());
    lemma_trim_end_at(m, t.len() as int);
    assert(m.take(t.len() as int) =~= t);
}

/// Whether `c` is one of the characters the protocol trims.
pub fn is_space(c: char) -> (r: bool)
    ensures
        r == is_space_char(c),
{
    c == ' ' || c == '\t' || c == '\n' || c == '\r'
}

/// Strip the protocol's whitespace from both ends of a message.
pub fn trim_spaces<'a>(s: &'a str) -> (r: &'a str)
    ensures
        r@ == trim_spec(s@),
{
    let n = s.unicode_len();
    let mut i: usize = 0;
    while i < n && is_space(s.get_char(i))
        invariant
            0 <= i <= n,
            n == s@.len(),
            forall|k: int| 0 <= k < i ==> is_space_char(s@[k]),
        decreases n - i,
    {
        i = i + 1;
    }
    let mut j: usize = n;
    while j > i && is_space(s.get_char(j - 1))
        invariant
            i <= j <= n,
            n == s@.len(),
            forall|k: int| j <= k < n ==> is_space_char(s@[k]),
        decreases j,
    {
        j = j - 1;
    }
    proof {
        lemma_trim_start_at(s@, i as int);
        let t = s@.skip(i as int);
        lemma_trim_end_at(t, j - i);
        assert(t.take(j - i) =~= s@.subrange(i as int, j as int));
    }
    s.substring_char(i, j)
}

/// Character-for-character equality of two string slices.
pub fn str_eq_str(a: &str, b: &str) -> (r: bool)
    ensures
        r == (a@ == b@),
{
    let an = a.unicode_len();
    let bn = b.unicode_len();
    if an != bn {
        return false;
    }
    let mut i: usize = 0;
    while i < an
        invariant
            0 <= i <= an,
            an == a@.len(),
            an == b@.len(),
            forall|k: int| 0 <= k < i ==> a@[k] == b@[k],
        decreases an - i,
    {
        if a.get_char(i) != b.get_char(i) {
            return false;
        }
        i = i + 1;
    }
    proof {
        assert(a@ =~= b@);
    }
    true
}

/// Whether a trimmed message is a `change_track` request: the fixed prefix
/// followed by at least zero further characters.
pub open spec fn is_change_track(t: Seq<char>) -> bool {
    t.len() >= "change_track "@.len() && t.subrange(0, "change_track "@.len() as int)
        == "change_track "@
}

/// The path argument of a `change_track` request: everything after the
/// prefix, verbatim.
pub open spec fn change_track_path(t: Seq<char>) -> Seq<char> {
    t.skip("change_track "@.len() as int)
}

/// What a message decodes to, after trimming.
pub open spec fn parse_spec(m: Seq<char>) -> CommandV {
    let t = trim_spec(m);
    if t == "append"@ {
        CommandV::Append
    } else if t == "toggle_play"@ {
        CommandV::TogglePlay
    } else if t == "make_infinite"@ || t == "loop"@ {
        CommandV::MakeInfinite
    } else if t == "stop"@ {
        CommandV::Stop
    } else if t == "kill"@ {
        CommandV::Kill
    } else if is_change_track(t) {
        CommandV::ChangeTrack(change_track_path(t))
    } else {
        CommandV::Unknown
    }
}

/// Decode one message's text into a command.
pub fn parse_command(msg: &str) -> (c: Command)
    ensures
        c@ == parse_spec(msg@),
{
    let t = trim_spaces(msg);
    if str_eq_str(t, "append") {
        Command::Append
    } else if str_eq_str(t, "toggle_play") {
        Command::TogglePlay
    } else if str_eq_str(t, "make_infinite") || str_eq_str(t, "loop") {
        Command::MakeInfinite
    } else if str_eq_str(t, "stop") {
        Command::Stop
    } else if str_eq_str(t, "kill") {
        Command::Kill
    } else {
        proof {
            reveal_strlit("change_track ");
        }
        let n = t.unicode_len();
        if n >= 13 && str_eq_str(t.substring_char(0, 13), "change_track ") {
            let path = t.substring_char(13, n);
            Command::ChangeTrack(String::from_str(path))
        } else {
            Command::Unknown
        }
    }
}

/// What `String::from_utf8_lossy` makes of a byte sequence.
pub uninterp spec fn lossy_decode_of(bytes: Seq<u8>) -> Seq<char>;

/// Relies on `String::from_utf8_lossy`: valid UTF-8 is decoded unchanged, and
/// invalid sequences are substituted rather than rejected, so the result is a
/// function of the bytes alone.
#[verifier::external_body]
fn lossy_utf8(buf: &[u8]) -> (r: String)
    ensures
        r@ == lossy_decode_of(buf@),
        vstd::utf8::valid_utf8(buf@) ==> r@ == vstd::utf8::decode_utf8(buf@),
{
    String::from_utf8_lossy(buf).into_owned()
}

/// What one delivered message means: zero bytes are a disconnect, not a
/// command; anything else is decoded lossily and parsed.
pub open spec fn decode_spec(b: Seq<u8>) -> Result<CommandV, DaemonError> {
    if b.len() == 0 {
        Err(DaemonError::ProtocolError)
    } else {
        Ok(parse_spec(lossy_decode_of(b)))
    }
}

/// Decode the bytes read from one connection. An empty read is the client
/// disconnecting before it sent anything.
pub fn decode_message(buf: &[u8]) -> (r: Result<Command, DaemonError>)
    ensures
        r is Ok <==> decode_spec(buf@) is Ok,
        r matches Ok(c) ==> c@ == decode_spec(buf@)->Ok_0,
        r matches Err(e) ==> e == decode_spec(buf@)->Err_0,
{
    if buf.len() == 0 {
        Err(DaemonError::ProtocolError)
    } else {
        let text = lossy_utf8(buf);
        Ok(parse_command(text.as_str()))
    }
}

/// The numeric command surface the client exposes, mapped one-to-one onto
/// the wire texts the daemon recognizes.
pub open spec fn known_command(n: u8) -> bool {
    n == 0 || n == 1 || n == 2 || n == 3 || n == 4 || n == 5
}

/// The wire text for a known command number; `change_track` carries the
/// title after its fixed prefix.
pub open spec fn wire_spec(n: u8, title: Seq<char>) -> Seq<char>
    recommends
        known_command(n),
{
    if n == 0 {
        "append"@
    } else if n == 1 {
        "toggle_play"@
    } else if n == 2 {
        "stop"@
    } else if n == 3 {
        "make_infinite"@
    } else if n == 4 {
        "change_track "@ + title
    } else {
        "kill"@
    }
}

/// Encode a numeric command as its wire text; `None` for a number outside
/// the recognized set.
pub fn encode_command(command: u8, title: &str) -> (r: Option<String>)
    ensures
        r is Some <==> known_command(command),
        r matches Some(s) ==> s@ == wire_spec(command, title@),
{
    match command {
        0u8 => Some(String::from_str("append")),
        1u8 => Some(String::from_str("toggle_play")),
        2u8 => Some(String::from_str("stop")),
        3u8 => Some(String::from_str("make_infinite")),
        4u8 => Some(String::from_str("change_track ").concat(title)),
        5u8 => Some(String::from_str("kill")),
        _ => None,
    }
}

} // verus!
