use yap_gui::model::Song;
use yap_gui::model::Status;
use yap_gui::model::Time;
use yap_gui::model::to_twenty_char;
use yap_gui::parse::ParseError;
use yap_gui::parse::parse_current;
use yap_gui::parse::parse_playlists;
use yap_gui::parse::parse_songs;
use yap_gui::parse::parse_status;

fn song(name: &str, artist: &str) -> Song {
    Song { name: name.to_string(), artist: artist.to_string() }
}

#[test]
fn song_list_preserves_order() {
    let songs = parse_songs("First - Alpha\nSecond - Beta\nThird - Gamma\n").unwrap();
    assert_eq!(songs.len(), 3);
    assert_eq!(songs[0], song("First", "Alpha"));
    assert_eq!(songs[1], song("Second", "Beta"));
    assert_eq!(songs[2], song("Third", "Gamma"));
}

#[test]
fn song_list_skips_blank_lines() {
    let songs = parse_songs("\n\nOnly - One\n\n  \n").unwrap();
    assert_eq!(songs.len(), 1);
    assert_eq!(songs[0], song("Only", "One"));
}

#[test]
fn song_list_fails_entirely_on_missing_separator() {
    let r = parse_songs("Good - Line\nno separator here\nAlso - Good\n");
    assert_eq!(r, Err(ParseError::MissingSeparator));
}

#[test]
fn song_line_splits_once_on_first_separator() {
    let songs = parse_songs("Name - Artist - Extra\n").unwrap();
    assert_eq!(songs.len(), 1);
    assert_eq!(songs[0], song("Name", "Artist - Extra"));
}

#[test]
fn empty_song_list_is_ok_and_empty() {
    assert_eq!(parse_songs(""), Ok(Vec::new()));
}

#[test]
fn playlists_are_verbatim_nonblank_lines() {
    let names = parse_playlists("one\n\n two \nthree\n");
    assert_eq!(names, vec!["one".to_string(), " two ".to_string(), "three".to_string()]);
}

#[test]
fn current_track_round_trip() {
    let r = parse_current("Current song: A\nArtist: B\n01:23/04:56 (45%)\n");
    let (s, t) = r.unwrap();
    assert_eq!(s, song("A", "B"));
    assert_eq!(t, Time { min: 1, sec: 23, tot_min: 4, tot_sec: 56, perc: 45 });
}

#[test]
fn current_track_accepts_crlf_lines() {
    let r = parse_current("Current song: A\r\nArtist: B\r\n01:23/04:56 (45%)\r\n");
    let (s, t) = r.unwrap();
    assert_eq!(s, song("A", "B"));
    assert_eq!(t.perc, 45);
}

#[test]
fn current_track_none_for_empty_input() {
    assert!(parse_current("").is_none());
}

#[test]
fn current_track_none_for_two_lines() {
    assert!(parse_current("Current song: A\nArtist: B\n").is_none());
}

#[test]
fn current_track_none_for_short_time_line() {
    assert!(parse_current("Current song: A\nArtist: B\n01:23\n").is_none());
}

#[test]
fn current_track_none_for_wrong_prefix() {
    assert!(parse_current("Song: A\nArtist: B\n01:23/04:56 (45%)\n").is_none());
}

#[test]
fn time_reads_all_five_fields() {
    let t = Time::from_str("12:03/56:07 (89%)").unwrap();
    assert_eq!(t, Time { min: 12, sec: 3, tot_min: 56, tot_sec: 7, perc: 89 });
}

#[test]
fn time_bounds_of_percent() {
    assert!(Time::from_str("00:00/00:00 (0%)").is_some());
    assert!(Time::from_str("00:00/00:00 (100%)").is_some());
    assert!(Time::from_str("00:00/00:00 (101%)").is_none());
}

#[test]
fn time_rejects_non_numeric_fields() {
    assert!(Time::from_str("aa:23/04:56 (45%)").is_none());
    assert!(Time::from_str("01:23/04:xx (45%)").is_none());
}

#[test]
fn status_parses_three_flags() {
    let st = parse_status("Pause: true\tRandom: false\tRepeat: true").unwrap();
    assert_eq!(st, Status { repeat: true, random: false, is_paused: true });
}

#[test]
fn status_fails_on_unknown_key() {
    assert_eq!(parse_status("Foo: true"), Err(ParseError::InvalidKey));
}

#[test]
fn status_fails_on_non_boolean_value() {
    assert_eq!(parse_status("Pause: yes"), Err(ParseError::InvalidValue));
}

#[test]
fn status_fails_on_field_without_value() {
    assert_eq!(parse_status("Pause"), Err(ParseError::MissingValue));
    assert_eq!(parse_status(""), Err(ParseError::MissingValue));
}

#[test]
fn status_last_duplicate_key_wins() {
    let st = parse_status("Pause: true\tPause: false").unwrap();
    assert!(!st.is_paused);
}

#[test]
fn status_tolerates_trailing_newline() {
    let st = parse_status("Pause: false\tRandom: true\tRepeat: false\n").unwrap();
    assert_eq!(st, Status { repeat: false, random: true, is_paused: false });
}

#[test]
fn twenty_char_shortens_long_names() {
    assert_eq!(to_twenty_char("abcdefghijklmnopqrstuvw"), "abcdefghijklmnopq...");
    assert_eq!(to_twenty_char("short"), "short");
}
