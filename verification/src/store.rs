//! The now-playing store's codec: the single-line record written on every
//! track-start and track-clear transition, and the reader that extracts the
//! file-name component for status queries. The file I/O around it lives in
//! the application; losing the record must never stop playback.

use vstd::prelude::*;
use vstd::string::*;
use crate::protocol::{trim_spec, trim_spaces};

verus! {

/// The record written for a track: its path followed by one newline. The
/// empty path encodes "nothing playing".
pub open spec fn record_of(track: Seq<char>) -> Seq<char> {
    track + "\n"@
}

/// The file-name component of a path: everything after the last `/`. A path
/// that ends in `/` has none.
pub open spec fn file_name_spec(s: Seq<char>) -> Seq<char>
    decreases s.len(),
{
    if s.len() == 0 {
        Seq::empty()
    } else if s.last() == '/' {
        Seq::empty()
    } else {
        file_name_spec(s.drop_last()).push(s.last())
    }
}

/// What a status query reads out of the record: `None` when the file is
/// absent, or when the trimmed record has no file-name component; otherwise
/// the file name only, never the full path.
pub open spec fn get_spec(contents: Option<Seq<char>>) -> Option<Seq<char>> {
    match contents {
        None => None,
        Some(c) => {
            let name = file_name_spec(trim_spec(c));
            if name.len() == 0 {
                None
            } else {
                Some(name)
            }
        },
    }
}

/// The file name is the suffix that starts right after the last `/`.
proof fn lemma_file_name_suffix(s: Seq<char>, i: int)
    requires
        0 <= i <= s.len(),
        forall|k: int| i <= k < s.len() ==> s[k] != '/',
        i > 0 ==> s[i - 1] == '/',
    ensures
        file_name_spec(s) == s.skip(i),
    decreases s.len() - i,
{
    if i == s.len() {
        if s.len() > 0 {
            assert(s.last() == '/');
        }
        assert(s.skip(i) =~= Seq::<char>::empty());
    } else {
        lemma_file_name_suffix(s.drop_last(), i);
        assert(s.drop_last().skip(i).push(s.last()) =~= s.skip(i));
    }
}

/// A file name contains no `/`.
pub proof fn lemma_file_name_no_slash(s: Seq<char>)
    ensures
        forall|k: int| 0 <= k < file_name_spec(s).len() ==> file_name_spec(s)[k] != '/',
    decreases s.len(),
{
    if s.len() > 0 && s.last() != '/' {
        lemma_file_name_no_slash(s.drop_last());
        let sub = file_name_spec(s.drop_last());
        assert forall|k: int| 0 <= k < file_name_spec(s).len() implies file_name_spec(s)[k]
            != '/' by {
            if k < sub.len() {
                assert(file_name_spec(s)[k] == sub[k]);
            } else {
                assert(file_name_spec(s)[k] == s.last());
            }
        }
    }
}

/// Render the record for a track path: the line the store's writer puts on
/// disk. The empty path encodes "nothing playing".
pub fn update_currently_playing(song: &str) -> (r: String)
    ensures
        r@ == record_of(song@),
{
    String::from_str(song).concat("\n")
}

/// Read the track name out of the record's contents, `None` standing for a
/// file that does not exist or could not be read. Returns the file-name
/// component only, or `None` when the record holds none.
pub fn get_currently_playing(contents: &Option<String>) -> (r: Option<String>)
    ensures
        r.deep_view() == get_spec(contents.deep_view()),
{
    match contents {
        None => None,
        Some(c) => {
            let t = trim_spaces(c.as_str());
            let name = file_name_part(t);
            if name.is_empty() {
                None
            } else {
                Some(String::from_str(name))
            }
        },
    }
}

/// The suffix of `s` after its last `/`.
fn file_name_part<'a>(s: &'a str) -> (r: &'a str)
    ensures
        r@ == file_name_spec(s@),
{
    let n = s.unicode_len();
    let mut i: usize = n;
    while i > 0 && s.get_char(i - 1) != '/'
        invariant
            0 <= i <= n,
            n == s@.len(),
            forall|k: int| i <= k < n ==> s@[k] != '/',
        decreases i,
    {
        i = i - 1;
    }
    proof {
        lemma_file_name_suffix(s@, i as int);
    }
    s.substring_char(i, n)
}

/// What a status query shows the user for a given store reading.
pub open spec fn view_message_spec(now: Option<Seq<char>>) -> Seq<char> {
    match now {
        Some(name) => if name.len() > 0 {
            "Currently playing: "@ + name
        } else {
            "Nothing is currently playing."@
        },
        None => "Nothing is currently playing."@,
    }
}

/// The status line for what the store currently holds.
pub fn view_message(now: &Option<String>) -> (r: String)
    ensures
        r@ == view_message_spec(now.deep_view()),
{
    match now {
        Some(name) => {
            if name.as_str().is_empty() {
                String::from_str("Nothing is currently playing.")
            } else {
                String::from_str("Currently playing: ").concat(name.as_str())
            }
        },
        None => String::from_str("Nothing is currently playing."),
    }
}

} // verus!
