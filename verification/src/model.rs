//! The typed state model: songs, playback times and player status flags, all
//! reconstructed from scratch on every poll of the daemon.

use vstd::prelude::*;
use vstd::string::StrSliceExecFns;
use vstd::string::StringExecFns;

verus! {

/// A song, identified by the pair (name, artist); the daemon gives it no
/// numeric id.
#[derive(Clone, Debug)]
pub struct Song {
    pub name: String,
    pub artist: String,
}

/// The mathematical value of a [`Song`]: its two fields as character
/// sequences.
pub struct SongView {
    pub name: Seq<char>,
    pub artist: Seq<char>,
}

impl View for Song {
    type V = SongView;

    open spec fn view(&self) -> SongView {
        SongView { name: self.name@, artist: self.artist@ }
    }
}

impl PartialEq for Song {
    fn eq(&self, other: &Song) -> (r: bool) {
        self.name == other.name && self.artist == other.artist
    }
}

impl vstd::std_specs::cmp::PartialEqSpecImpl for Song {
    open spec fn obeys_eq_spec() -> bool {
        true
    }

    open spec fn eq_spec(&self, other: &Song) -> bool {
        self.name@ == other.name@ && self.artist@ == other.artist@
    }
}

/// Elapsed and total playback time of the current song, with the progress
/// percentage the daemon reports. A percentage beyond 100 would break the
/// model's invariant and is rejected by the parser, never clamped.
#[derive(Clone, Copy, Debug, PartialEq, Eq, Structural)]
pub struct Time {
    pub min: u32,
    pub sec: u32,
    pub tot_min: u32,
    pub tot_sec: u32,
    pub perc: u8,
}

impl Time {
    /// The invariant every parsed playback time satisfies.
    pub open spec fn wf(self) -> bool {
        self.perc <= 100
    }
}

/// The three independent player flags; each is toggled by its own command.
#[derive(Clone, Copy, Debug, PartialEq, Eq, Structural)]
pub struct Status {
    pub repeat: bool,
    pub random: bool,
    pub is_paused: bool,
}

impl Status {
    /// The state assumed when a poll tick yields no usable status output.
    pub fn all_off() -> (r: Status)
        ensures
            r == (Status { repeat: false, random: false, is_paused: false }),
    {
        Status { repeat: false, random: false, is_paused: false }
    }
}

/// The view of an optional current track: `None` stands both for "nothing
/// playing" and for output this core could not interpret.
pub open spec fn track_view(t: Option<(Song, Time)>) -> Option<(SongView, Time)> {
    match t {
        Option::None => Option::None,
        Option::Some((s, tm)) => Option::Some((s@, tm)),
    }
}

/// The views of a list of songs, in order.
pub open spec fn songs_view(s: Seq<Song>) -> Seq<SongView> {
    s.map_values(|x: Song| x@)
}

/// Structural equality of two songs, usable from executable code; the
/// original change detection compares fresh instances by value, never by
/// reference.
pub fn song_eq(a: &Song, b: &Song) -> (r: bool)
    ensures
        r == (a@.name == b@.name && a@.artist == b@.artist),
{
    a.name == b.name && a.artist == b.artist
}

/// A song name fitted to the control widget's label: a name of more than
/// seventeen characters keeps its first seventeen and gains an ellipsis.
/// Counting characters, not bytes, keeps the cut off a multi-byte
/// boundary.
pub open spec fn spec_twenty(s: Seq<char>) -> Seq<char> {
    if s.len() > 17 {
        s.subrange(0, 17) + "..."@
    } else {
        s
    }
}

/// Shortens a song name for display as [`spec_twenty`] describes.
pub fn to_twenty_char(s: &str) -> (r: String)
    ensures
        r@ == spec_twenty(s@),
{
    let n = s.unicode_len();
    if n > 17 {
        let mut t = String::from_str(s.substring_char(0, 17));
        t.append("...");
        t
    } else {
        String::from_str(s)
    }
}

} // verus!
