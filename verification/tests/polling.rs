use yap_gui::cache::ChangeSet;
use yap_gui::cache::SnapshotCache;
use yap_gui::command::ControlState;
use yap_gui::config::Config;
use yap_gui::model::Song;
use yap_gui::model::Status;
use yap_gui::model::Time;
use yap_gui::model::song_eq;
use yap_gui::poller::QueueState;
use yap_gui::poller::is_current_row;
use yap_gui::poller::queue_tick;
use yap_gui::poller::status_tick;

const CURRENT: &str = "Current song: A\nArtist: B\n01:23/04:56 (45%)\n";
const STATUS: &str = "Pause: true\tRandom: false\tRepeat: true";

#[test]
fn identical_update_reports_no_change_the_second_time() {
    let mut cache = SnapshotCache::new();
    status_tick(&mut cache, Some(CURRENT), Some(STATUS));
    let c = status_tick(&mut cache, Some(CURRENT), Some(STATUS));
    assert_eq!(c, ChangeSet { track_changed: false, status_changed: false });
}

#[test]
fn first_observation_reports_changes() {
    let mut cache = SnapshotCache::new();
    let c = status_tick(&mut cache, Some(CURRENT), Some(STATUS));
    assert_eq!(c, ChangeSet { track_changed: true, status_changed: true });
    let (song, time) = cache.track.clone().unwrap();
    assert_eq!(song.name, "A");
    assert_eq!(song.artist, "B");
    assert_eq!(time, Time { min: 1, sec: 23, tot_min: 4, tot_sec: 56, perc: 45 });
    assert_eq!(cache.status, Status { repeat: true, random: false, is_paused: true });
}

#[test]
fn track_change_is_by_song_identity_not_position() {
    let mut cache = SnapshotCache::new();
    status_tick(&mut cache, Some(CURRENT), Some(STATUS));
    let later = "Current song: A\nArtist: B\n02:00/04:56 (51%)\n";
    let c = status_tick(&mut cache, Some(later), Some(STATUS));
    assert!(!c.track_changed);
    let other = "Current song: C\nArtist: B\n00:01/03:00 (1%)\n";
    let c = status_tick(&mut cache, Some(other), Some(STATUS));
    assert!(c.track_changed);
}

#[test]
fn gateway_failure_degrades_to_no_data() {
    let mut cache = SnapshotCache::new();
    status_tick(&mut cache, Some(CURRENT), Some(STATUS));
    let c = status_tick(&mut cache, None, None);
    assert!(c.track_changed);
    assert!(c.status_changed);
    assert!(cache.track.is_none());
    assert_eq!(cache.status, Status { repeat: false, random: false, is_paused: false });
}

#[test]
fn bad_status_text_degrades_to_defaults_for_the_tick() {
    let mut cache = SnapshotCache::new();
    status_tick(&mut cache, Some(CURRENT), Some("Nonsense: 3"));
    assert_eq!(cache.status, Status { repeat: false, random: false, is_paused: false });
    assert!(cache.track.is_some());
}

#[test]
fn queue_tick_rebuilds_only_on_difference() {
    let mut q = QueueState::new();
    let text = "One - A\nTwo - B\n";
    assert!(queue_tick(&mut q, Some(text), Some(CURRENT)));
    assert_eq!(q.songs.len(), 2);
    assert!(!queue_tick(&mut q, Some(text), Some(CURRENT)));
    let reordered = "Two - B\nOne - A\n";
    assert!(queue_tick(&mut q, Some(reordered), Some(CURRENT)));
}

#[test]
fn queue_tick_notices_progress_alone() {
    let mut q = QueueState::new();
    let text = "One - A\n";
    queue_tick(&mut q, Some(text), Some(CURRENT));
    let later = "Current song: A\nArtist: B\n02:00/04:56 (51%)\n";
    assert!(queue_tick(&mut q, Some(text), Some(later)));
}

#[test]
fn cleared_queue_polls_back_empty_without_error() {
    let mut q = QueueState::new();
    queue_tick(&mut q, Some("One - A\n"), None);
    assert!(queue_tick(&mut q, Some(""), None));
    assert!(q.songs.is_empty());
    assert!(!queue_tick(&mut q, Some(""), None));
}

#[test]
fn malformed_queue_text_degrades_to_empty() {
    let mut q = QueueState::new();
    queue_tick(&mut q, Some("One - A\n"), None);
    assert!(queue_tick(&mut q, Some("no separator"), None));
    assert!(q.songs.is_empty());
}

#[test]
fn highlight_is_by_name_alone() {
    let row = Song { name: "A".to_string(), artist: "someone else".to_string() };
    let time = Time { min: 0, sec: 0, tot_min: 0, tot_sec: 0, perc: 0 };
    let current = Some((Song { name: "A".to_string(), artist: "B".to_string() }, time));
    assert!(is_current_row(&row, &current));
    assert!(!is_current_row(&row, &None));
    let other = Some((Song { name: "C".to_string(), artist: "B".to_string() }, time));
    assert!(!is_current_row(&row, &other));
}

#[test]
fn control_state_is_seeded_from_status() {
    let st = ControlState::from_status(Status { repeat: true, random: false, is_paused: true });
    assert!(st.is_paused);
    assert!(st.is_repeating);
    assert!(!st.is_random);
}

#[test]
fn song_equality_is_by_name_and_artist() {
    let a = Song { name: "x".to_string(), artist: "y".to_string() };
    let b = Song { name: "x".to_string(), artist: "y".to_string() };
    let c = Song { name: "x".to_string(), artist: "z".to_string() };
    assert!(song_eq(&a, &b));
    assert!(!song_eq(&a, &c));
    assert!(a == b);
    assert!(a != c);
}

#[test]
fn config_defaults_match_first_start() {
    let c = Config::default();
    assert_eq!(c.general.music_directory, "~/Music/songs/");
    assert_eq!(c.general.miniature_directory, "~/Music/miniatures");
    assert!(!c.general.download_miniature);
    assert_eq!(c.database.database_path, "~/.config/yap/yap.db");
}
