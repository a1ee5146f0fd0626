//! The per-tick decisions of the pollers. A tick receives whatever the
//! gateway brought back — `None` when the external call itself failed —
//! parses it, replaces the owned snapshot wholesale, and says whether
//! anything changed, so the caller can suppress a redundant view update. A
//! failed call or an unparseable response degrades this one tick to "no
//! data"; the next scheduled tick is the retry.

use vstd::prelude::*;

use crate::cache::ChangeSet;
use crate::cache::SnapshotCache;
use crate::cache::spec_changes;
use crate::model::Song;
use crate::model::SongView;
use crate::model::Status;
use crate::model::Time;
use crate::model::song_eq;
use crate::model::songs_view;
use crate::model::track_view;
use crate::parse::parse_current;
use crate::parse::parse_songs;
use crate::parse::parse_status;
use crate::parse::spec_parse_current;
use crate::parse::spec_parse_songs;
use crate::parse::spec_parse_status;

verus! {

/// The view of a gateway result: the output text, or nothing when the
/// external call failed.
pub open spec fn text_view(t: Option<&str>) -> Option<Seq<char>> {
    match t {
        Option::None => Option::None,
        Option::Some(s) => Option::Some(s@),
    }
}

/// The track a tick publishes for the given gateway output: what the
/// current-track parser reads, and nothing when the gateway failed.
pub open spec fn spec_tick_track(current_text: Option<Seq<char>>) -> Option<(SongView, Time)> {
    match current_text {
        Option::None => Option::None,
        Option::Some(t) => spec_parse_current(t),
    }
}

/// The status a tick publishes: what the status parser reads; a gateway
/// failure or a parse error degrades to the all-off defaults for this tick
/// only.
pub open spec fn spec_tick_status(status_text: Option<Seq<char>>) -> Status {
    match status_text {
        Option::None => Status { repeat: false, random: false, is_paused: false },
        Option::Some(t) => match spec_parse_status(t) {
            Result::Ok(st) => st,
            Result::Err(_) => Status { repeat: false, random: false, is_paused: false },
        },
    }
}

/// The queue a tick publishes: the parsed song list, and an empty queue
/// when the gateway failed or the output was malformed.
pub open spec fn spec_tick_queue(queue_text: Option<Seq<char>>) -> Seq<SongView> {
    match queue_text {
        Option::None => Seq::empty(),
        Option::Some(t) => match spec_parse_songs(t) {
            Result::Ok(s) => s,
            Result::Err(_) => Seq::empty(),
        },
    }
}

/// One tick of the transport poller: parses the current-track and status
/// responses, replaces the snapshot wholesale, and reports what changed
/// against the snapshot before the tick. No failure stops the poll loop.
pub fn status_tick(
    cache: &mut SnapshotCache,
    current_text: Option<&str>,
    status_text: Option<&str>,
) -> (c: ChangeSet)
    ensures
        track_view(final(cache).track) == spec_tick_track(text_view(current_text)),
        final(cache).status == spec_tick_status(text_view(status_text)),
        c == spec_changes(*old(cache), final(cache).track, final(cache).status),
{
    let track = match current_text {
        Option::None => Option::None,
        Option::Some(t) => parse_current(t),
    };
    let status = match status_text {
        Option::None => Status::all_off(),
        Option::Some(t) => match parse_status(t) {
            Result::Ok(st) => st,
            Result::Err(_) => Status::all_off(),
        },
    };
    cache.update(track, status)
}

/// Two optional observations show the very same thing: both absent, or
/// both present with equal song and equal playback time. This is the full
/// comparison the queue view uses, where a moved progress bar alone must
/// already redraw the highlight.
pub open spec fn same_observation(a: Option<(SongView, Time)>, b: Option<(SongView, Time)>) -> bool {
    match (a, b) {
        (Option::None, Option::None) => true,
        (Option::Some((s1, t1)), Option::Some((s2, t2))) => s1.name == s2.name && s1.artist
            == s2.artist && t1 == t2,
        _ => false,
    }
}

fn observation_same(a: &Option<(Song, Time)>, b: &Option<(Song, Time)>) -> (r: bool)
    ensures
        r == same_observation(track_view(*a), track_view(*b)),
{
    match (a, b) {
        (Option::None, Option::None) => true,
        (Option::Some((s1, t1)), Option::Some((s2, t2))) => song_eq(s1, s2) && *t1 == *t2,
        _ => false,
    }
}

fn songs_eq(a: &Vec<Song>, b: &Vec<Song>) -> (r: bool)
    ensures
        r == (songs_view(a@) == songs_view(b@)),
{
    let n = a.len();
    if n != b.len() {
        proof {
            assert(songs_view(a@).len() == a@.len());
            assert(songs_view(b@).len() == b@.len());
        }
        return false;
    }
    let mut i: usize = 0;
    while i < n
        invariant
            n == a@.len(),
            n == b@.len(),
            i <= n,
            forall|j: int| 0 <= j < i ==> #[trigger] songs_view(a@)[j] == songs_view(b@)[j],
        decreases n - i,
    {
        if !song_eq(&a[i], &b[i]) {
            proof {
                assert(songs_view(a@)[i as int] == a@[i as int]@);
                assert(songs_view(b@)[i as int] == b@[i as int]@);
            }
            return false;
        }
        proof {
            assert(songs_view(a@)[i as int] == a@[i as int]@);
            assert(songs_view(b@)[i as int] == b@[i as int]@);
        }
        i = i + 1;
    }
    proof {
        assert(songs_view(a@) =~= songs_view(b@));
    }
    true
}

/// What the queue poller owns: the last rendered queue and the current
/// track used for the row highlight.
pub struct QueueState {
    pub songs: Vec<Song>,
    pub current: Option<(Song, Time)>,
}

impl QueueState {
    /// The queue view before its first poll: empty, nothing highlighted.
    pub fn new() -> (r: QueueState)
        ensures
            r.songs@.len() == 0,
            r.current is None,
    {
        QueueState { songs: Vec::new(), current: Option::None }
    }
}

/// Whether a queue row shows the song now playing and gets the highlight:
/// the queue view compares by song name alone, so duplicates of the
/// current song are all highlighted.
pub fn is_current_row(song: &Song, current: &Option<(Song, Time)>) -> (r: bool)
    ensures
        r == match track_view(*current) {
            Option::None => false,
            Option::Some((sv, _)) => sv.name == song@.name,
        },
{
    match current {
        Option::None => false,
        Option::Some((cur, _)) => cur.name == song.name,
    }
}

/// One tick of the queue poller: parses the queue and current-track
/// responses, replaces the owned state wholesale, and says whether the
/// list view must be rebuilt — exactly when the queue or the observed
/// current track differs structurally from the last rendered one.
pub fn queue_tick(
    state: &mut QueueState,
    queue_text: Option<&str>,
    current_text: Option<&str>,
) -> (changed: bool)
    ensures
        songs_view(final(state).songs@) == spec_tick_queue(text_view(queue_text)),
        track_view(final(state).current) == spec_tick_track(text_view(current_text)),
        changed == !(songs_view(old(state).songs@) == songs_view(final(state).songs@)
            && same_observation(track_view(old(state).current), track_view(final(state).current))),
{
    let new_songs: Vec<Song> = match queue_text {
        Option::None => Vec::new(),
        Option::Some(t) => match parse_songs(t) {
            Result::Ok(v) => v,
            Result::Err(_) => Vec::new(),
        },
    };
    proof {
        if new_songs@.len() == 0 {
            assert(songs_view(new_songs@) =~= Seq::<SongView>::empty());
        }
    }
    let new_current = match current_text {
        Option::None => Option::None,
        Option::Some(t) => parse_current(t),
    };
    let changed = !(songs_eq(&state.songs, &new_songs) && observation_same(
        &state.current,
        &new_current,
    ));
    state.songs = new_songs;
    state.current = new_current;
    changed
}

} // verus!
