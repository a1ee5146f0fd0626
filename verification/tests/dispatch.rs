use yap_gui::command::ControlState;
use yap_gui::command::DispatchError;
use yap_gui::command::Intent;
use yap_gui::command::current_command;
use yap_gui::command::delete_song_at;
use yap_gui::command::dispatch;
use yap_gui::command::playlist_list_command;
use yap_gui::command::queue_command;
use yap_gui::command::song_list_command;
use yap_gui::command::status_command;
use yap_gui::command::u64_dec;
use yap_gui::model::Song;

fn args(words: &[&str]) -> Vec<String> {
    words.iter().map(|w| w.to_string()).collect()
}

fn fresh_state() -> ControlState {
    ControlState { is_paused: false, is_repeating: false, is_random: false }
}

#[test]
fn seek_boundaries_pass_through_unmodified() {
    let mut st = fresh_state();
    let c0 = dispatch(&mut st, &Intent::Seek(0)).unwrap();
    assert_eq!(c0.args, args(&["mpd", "seek", "--percentage", "0"]));
    let c100 = dispatch(&mut st, &Intent::Seek(100)).unwrap();
    assert_eq!(c100.args, args(&["mpd", "seek", "--percentage", "100"]));
}

#[test]
fn seek_out_of_range_is_not_special_cased() {
    let mut st = fresh_state();
    let c = dispatch(&mut st, &Intent::Seek(250)).unwrap();
    assert_eq!(c.args, args(&["mpd", "seek", "--percentage", "250"]));
}

#[test]
fn decimal_formatting_is_exact() {
    assert_eq!(u64_dec(0), "0");
    assert_eq!(u64_dec(7), "7");
    assert_eq!(u64_dec(100), "100");
    assert_eq!(u64_dec(u64::MAX), "18446744073709551615");
}

#[test]
fn clear_queue_twice_issues_clear_both_times() {
    let mut st = fresh_state();
    let before = st;
    let c1 = dispatch(&mut st, &Intent::ClearQueue).unwrap();
    let c2 = dispatch(&mut st, &Intent::ClearQueue).unwrap();
    assert_eq!(c1.args, args(&["mpd", "clear"]));
    assert_eq!(c2.args, args(&["mpd", "clear"]));
    assert_eq!(st, before);
}

#[test]
fn toggle_play_chooses_branch_and_flips() {
    let mut st = ControlState { is_paused: true, is_repeating: false, is_random: false };
    let c1 = dispatch(&mut st, &Intent::TogglePlay).unwrap();
    assert_eq!(c1.args, args(&["mpd", "play"]));
    assert!(!st.is_paused);
    let c2 = dispatch(&mut st, &Intent::TogglePlay).unwrap();
    assert_eq!(c2.args, args(&["mpd", "pause"]));
    assert!(st.is_paused);
}

#[test]
fn shuffle_and_repeat_flip_their_flags() {
    let mut st = fresh_state();
    let c1 = dispatch(&mut st, &Intent::ToggleShuffle).unwrap();
    assert_eq!(c1.args, args(&["mpd", "shuffle"]));
    assert!(st.is_random);
    let c2 = dispatch(&mut st, &Intent::ToggleRepeat).unwrap();
    assert_eq!(c2.args, args(&["mpd", "repeat"]));
    assert!(st.is_repeating);
    assert!(!st.is_paused);
}

#[test]
fn next_and_previous_map_directly() {
    let mut st = fresh_state();
    assert_eq!(dispatch(&mut st, &Intent::Next).unwrap().args, args(&["mpd", "next"]));
    assert_eq!(dispatch(&mut st, &Intent::Prev).unwrap().args, args(&["mpd", "previous"]));
}

#[test]
fn named_intents_emit_the_name_verbatim() {
    let mut st = fresh_state();
    let c = dispatch(&mut st, &Intent::PlaySong("Morning Song".to_string())).unwrap();
    assert_eq!(c.args, args(&["play", "song", "--name", "Morning Song"]));
    let c = dispatch(&mut st, &Intent::PlayPlaylist("road trip".to_string())).unwrap();
    assert_eq!(c.args, args(&["play", "playlist", "--name", "road trip"]));
    let c = dispatch(&mut st, &Intent::AddToQueue("Morning Song".to_string())).unwrap();
    assert_eq!(c.args, args(&["mpd", "queue-add", "--song-name", "Morning Song"]));
    let c = dispatch(&mut st, &Intent::RemoveFromQueue("Morning Song".to_string())).unwrap();
    assert_eq!(c.args, args(&["mpd", "queue-remove", "--song-name", "Morning Song"]));
    let c = dispatch(&mut st, &Intent::ShuffleQueue).unwrap();
    assert_eq!(c.args, args(&["mpd", "queue-shuffle"]));
}

#[test]
fn unsafe_names_are_refused() {
    let mut st = fresh_state();
    let before = st;
    let r = dispatch(&mut st, &Intent::PlaySong("--force".to_string()));
    assert_eq!(r.unwrap_err(), DispatchError::UnsafeName);
    let r = dispatch(&mut st, &Intent::DeleteSong("bad\nname".to_string()));
    assert_eq!(r.unwrap_err(), DispatchError::UnsafeName);
    let r = dispatch(&mut st, &Intent::AddToQueue("tab\tname".to_string()));
    assert_eq!(r.unwrap_err(), DispatchError::UnsafeName);
    let r = dispatch(&mut st, &Intent::PlayPlaylist(String::new()));
    assert_eq!(r.unwrap_err(), DispatchError::UnsafeName);
    assert_eq!(st, before);
}

#[test]
fn delete_song_removes_the_local_entry() {
    let mut songs = vec![
        Song { name: "One".to_string(), artist: "A".to_string() },
        Song { name: "Two".to_string(), artist: "B".to_string() },
    ];
    let c = delete_song_at(&mut songs, 0).unwrap();
    assert_eq!(c.args, args(&["song", "delete", "--name", "One"]));
    assert_eq!(songs.len(), 1);
    assert_eq!(songs[0].name, "Two");
}

#[test]
fn delete_song_out_of_bounds_changes_nothing() {
    let mut songs = vec![Song { name: "One".to_string(), artist: "A".to_string() }];
    let r = delete_song_at(&mut songs, 5);
    assert_eq!(r.unwrap_err(), DispatchError::NoSuchEntry);
    assert_eq!(songs.len(), 1);
}

#[test]
fn delete_song_with_unsafe_name_changes_nothing() {
    let mut songs = vec![Song { name: "-x".to_string(), artist: "A".to_string() }];
    let r = delete_song_at(&mut songs, 0);
    assert_eq!(r.unwrap_err(), DispatchError::UnsafeName);
    assert_eq!(songs.len(), 1);
}

#[test]
fn query_commands_have_fixed_arguments() {
    assert_eq!(song_list_command().args, args(&["song", "list"]));
    assert_eq!(playlist_list_command().args, args(&["playlist", "list"]));
    assert_eq!(current_command().args, args(&["mpd", "current"]));
    assert_eq!(status_command().args, args(&["mpd", "status"]));
    assert_eq!(queue_command().args, args(&["mpd", "queue"]));
}
