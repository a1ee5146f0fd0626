//! The snapshot cache: the last-observed current track and player status,
//! replaced wholesale on every poll and compared structurally so that
//! redundant view updates can be suppressed.

use vstd::prelude::*;

use crate::model::Song;
use crate::model::SongView;
use crate::model::Status;
use crate::model::Time;
use crate::model::song_eq;
use crate::model::track_view;

verus! {

/// What an update to the cache found different: whether the track identity
/// changed, and whether any status flag changed.
#[derive(Clone, Copy, Debug, PartialEq, Eq, Structural)]
pub struct ChangeSet {
    pub track_changed: bool,
    pub status_changed: bool,
}

/// The most recent observation of the player: at most one current track and
/// one status at a time, never merged field by field from stale data.
pub struct SnapshotCache {
    pub track: Option<(Song, Time)>,
    pub status: Status,
}

/// Track identity for change detection: two observations show the same
/// track when both are absent, or both present with equal song name and
/// artist. Equality is structural, since every poll constructs fresh
/// values.
pub open spec fn same_track(a: Option<(SongView, Time)>, b: Option<(SongView, Time)>) -> bool {
    match (a, b) {
        (Option::None, Option::None) => true,
        (Option::Some((s1, _)), Option::Some((s2, _))) => s1.name == s2.name && s1.artist
            == s2.artist,
        _ => false,
    }
}

/// The change flags an update against `cache` reports for a new
/// observation.
pub open spec fn spec_changes(cache: SnapshotCache, track: Option<(Song, Time)>, status: Status) -> ChangeSet {
    ChangeSet {
        track_changed: !same_track(track_view(cache.track), track_view(track)),
        status_changed: cache.status != status,
    }
}

/// Executable track-identity comparison, mirroring [`same_track`].
pub fn track_same(a: &Option<(Song, Time)>, b: &Option<(Song, Time)>) -> (r: bool)
    ensures
        r == same_track(track_view(*a), track_view(*b)),
{
    match (a, b) {
        (Option::None, Option::None) => true,
        (Option::Some((s1, _)), Option::Some((s2, _))) => song_eq(s1, s2),
        _ => false,
    }
}

impl SnapshotCache {
    /// An empty cache: nothing observed yet, every flag off.
    pub fn new() -> (r: SnapshotCache)
        ensures
            r.track is None,
            r.status == (Status { repeat: false, random: false, is_paused: false }),
    {
        SnapshotCache {
            track: Option::None,
            status: Status { repeat: false, random: false, is_paused: false },
        }
    }

    /// Replaces the whole snapshot with a new observation and reports what
    /// changed, by structural comparison against the old snapshot.
    pub fn update(&mut self, track: Option<(Song, Time)>, status: Status) -> (c: ChangeSet)
        ensures
            final(self).track == track,
            final(self).status == status,
            c == spec_changes(*old(self), track, status),
    {
        let track_changed = !track_same(&self.track, &track);
        let status_changed = !(self.status == status);
        self.track = track;
        self.status = status;
        ChangeSet { track_changed, status_changed }
    }
}

/// Updating with an identical observation twice reports no change the
/// second time: once the cache holds exactly the pair `(track, status)`, an
/// update with that same pair flags neither a track nor a status change.
pub proof fn lemma_second_update_reports_no_change(track: Option<(Song, Time)>, status: Status)
    ensures
        spec_changes(SnapshotCache { track, status }, track, status) == (ChangeSet {
            track_changed: false,
            status_changed: false,
        }),
{
}

} // verus!
