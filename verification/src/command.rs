//! The intent dispatcher: each discrete user action maps to exactly one
//! argument vector for the external control tool, with the optimistic local
//! flag flips the original interface applies while it waits for the next
//! authoritative poll. Names are checked before they are echoed into a
//! command, so that nothing a song list handed back can be misread as a
//! flag or split across arguments.

use vstd::prelude::*;
use vstd::string::StrSliceExecFns;
use vstd::string::StringExecFns;

use crate::model::Song;
use crate::model::Status;
use crate::text::strs_view;

verus! {

/// The argument vector handed to the external control tool, after the
/// program name.
#[derive(Debug)]
pub struct Command {
    pub args: Vec<String>,
}

impl View for Command {
    type V = Seq<Seq<char>>;

    open spec fn view(&self) -> Seq<Seq<char>> {
        strs_view(self.args@)
    }
}

/// The decimal digit `d` as a character.
pub open spec fn digit_char(d: int) -> char {
    if d == 0 {
        '0'
    } else if d == 1 {
        '1'
    } else if d == 2 {
        '2'
    } else if d == 3 {
        '3'
    } else if d == 4 {
        '4'
    } else if d == 5 {
        '5'
    } else if d == 6 {
        '6'
    } else if d == 7 {
        '7'
    } else if d == 8 {
        '8'
    } else {
        '9'
    }
}

/// The decimal numeral of `n`, most significant digit first, without sign
/// or padding.
pub open spec fn dec_of(n: nat) -> Seq<char>
    decreases n,
{
    if n < 10 {
        seq![digit_char(n as int)]
    } else {
        dec_of(n / 10).push(digit_char((n % 10) as int))
    }
}

fn digit_str(d: u64) -> (r: &'static str)
    requires
        d < 10,
    ensures
        r@ == seq![digit_char(d as int)],
{
    match d {
        0 => {
            proof {
                reveal_strlit("0");
                assert("0"@ =~= seq![digit_char(0)]);
            }
            "0"
        },
        1 => {
            proof {
                reveal_strlit("1");
                assert("1"@ =~= seq![digit_char(1)]);
            }
            "1"
        },
        2 => {
            proof {
                reveal_strlit("2");
                assert("2"@ =~= seq![digit_char(2)]);
            }
            "2"
        },
        3 => {
            proof {
                reveal_strlit("3");
                assert("3"@ =~= seq![digit_char(3)]);
            }
            "3"
        },
        4 => {
            proof {
                reveal_strlit("4");
                assert("4"@ =~= seq![digit_char(4)]);
            }
            "4"
        },
        5 => {
            proof {
                reveal_strlit("5");
                assert("5"@ =~= seq![digit_char(5)]);
            }
            "5"
        },
        6 => {
            proof {
                reveal_strlit("6");
                assert("6"@ =~= seq![digit_char(6)]);
            }
            "6"
        },
        7 => {
            proof {
                reveal_strlit("7");
                assert("7"@ =~= seq![digit_char(7)]);
            }
            "7"
        },
        8 => {
            proof {
                reveal_strlit("8");
                assert("8"@ =~= seq![digit_char(8)]);
            }
            "8"
        },
        _ => {
            proof {
                reveal_strlit("9");
                assert("9"@ =~= seq![digit_char(9)]);
            }
            "9"
        },
    }
}

/// Formats `n` in decimal, exactly as [`dec_of`] describes.
pub fn u64_dec(n: u64) -> (r: String)
    ensures
        r@ == dec_of(n as nat),
    decreases n,
{
    if n < 10 {
        String::from_str(digit_str(n))
    } else {
        let mut s = u64_dec(n / 10);
        let ghost head = s@;
        s.append(digit_str(n % 10));
        proof {
            assert(s@ =~= head.push(digit_char((n % 10) as int)));
        }
        s
    }
}

/// A character that may stand inside an argument: printable, so that no
/// control character can smuggle a record or argument boundary into the
/// command line.
pub open spec fn char_is_arg_safe(c: char) -> bool {
    (c as u32) >= 32 && (c as u32) != 127
}

/// A name may be echoed into a command only when it is non-empty, does not
/// open like a flag, and holds printable characters alone.
pub open spec fn name_is_safe(s: Seq<char>) -> bool {
    s.len() > 0 && s[0] != '-' && (forall|i: int| 0 <= i < s.len() ==> char_is_arg_safe(s[i]))
}

/// Executable test for [`name_is_safe`].
pub fn check_name(s: &str) -> (r: bool)
    ensures
        r == name_is_safe(s@),
{
    let n = s.unicode_len();
    if n == 0 || s.get_char(0) == '-' {
        return false;
    }
    let mut i: usize = 0;
    while i < n
        invariant
            n == s@.len(),
            i <= n,
            forall|j: int| 0 <= j < i ==> char_is_arg_safe(s@[j]),
        decreases n - i,
    {
        let c = s.get_char(i) as u32;
        if c < 32 || c == 127 {
            return false;
        }
        i = i + 1;
    }
    true
}

/// A discrete user action on the player or the queue.
pub enum Intent {
    TogglePlay,
    Next,
    Prev,
    ToggleShuffle,
    ToggleRepeat,
    Seek(u64),
    PlaySong(String),
    PlayPlaylist(String),
    DeleteSong(String),
    AddToQueue(String),
    RemoveFromQueue(String),
    ClearQueue,
    ShuffleQueue,
}

/// Why the dispatcher refused an intent.
#[derive(Clone, Copy, Debug, PartialEq, Eq, Structural)]
pub enum DispatchError {
    UnsafeName,
    NoSuchEntry,
}

/// The local flags the dispatcher flips optimistically; the next
/// authoritative poll overwrites them, so a failed command costs at most
/// one poll interval of stale display.
#[derive(Clone, Copy, Debug, PartialEq, Eq, Structural)]
pub struct ControlState {
    pub is_paused: bool,
    pub is_repeating: bool,
    pub is_random: bool,
}

impl ControlState {
    /// The local flags seeded from an authoritative status.
    pub fn from_status(status: Status) -> (r: ControlState)
        ensures
            r.is_paused == status.is_paused,
            r.is_random == status.random,
            r.is_repeating == status.repeat,
    {
        ControlState {
            is_paused: status.is_paused,
            is_repeating: status.repeat,
            is_random: status.random,
        }
    }
}

/// Whether the dispatcher accepts the intent: every intent that carries a
/// name requires a safe one, all others are always accepted.
pub open spec fn intent_admissible(intent: Intent) -> bool {
    match intent {
        Intent::PlaySong(n) => name_is_safe(n@),
        Intent::PlayPlaylist(n) => name_is_safe(n@),
        Intent::DeleteSong(n) => name_is_safe(n@),
        Intent::AddToQueue(n) => name_is_safe(n@),
        Intent::RemoveFromQueue(n) => name_is_safe(n@),
        _ => true,
    }
}

/// The argument vector each intent maps to. Only the play/pause toggle
/// reads the local state; a seek carries its percentage as the exact
/// decimal numeral, whatever its value — the daemon is authoritative for
/// out-of-range values.
pub open spec fn spec_command(st: ControlState, intent: Intent) -> Seq<Seq<char>> {
    match intent {
        Intent::TogglePlay => if st.is_paused {
            seq!["mpd"@, "play"@]
        } else {
            seq!["mpd"@, "pause"@]
        },
        Intent::Next => seq!["mpd"@, "next"@],
        Intent::Prev => seq!["mpd"@, "previous"@],
        Intent::ToggleShuffle => seq!["mpd"@, "shuffle"@],
        Intent::ToggleRepeat => seq!["mpd"@, "repeat"@],
        Intent::Seek(p) => seq!["mpd"@, "seek"@, "--percentage"@, dec_of(p as nat)],
        Intent::PlaySong(n) => seq!["play"@, "song"@, "--name"@, n@],
        Intent::PlayPlaylist(n) => seq!["play"@, "playlist"@, "--name"@, n@],
        Intent::DeleteSong(n) => seq!["song"@, "delete"@, "--name"@, n@],
        Intent::AddToQueue(n) => seq!["mpd"@, "queue-add"@, "--song-name"@, n@],
        Intent::RemoveFromQueue(n) => seq!["mpd"@, "queue-remove"@, "--song-name"@, n@],
        Intent::ClearQueue => seq!["mpd"@, "clear"@],
        Intent::ShuffleQueue => seq!["mpd"@, "queue-shuffle"@],
    }
}

/// The local flags after an intent: the three toggles flip their own flag,
/// every other intent leaves the state alone.
pub open spec fn spec_next_state(st: ControlState, intent: Intent) -> ControlState {
    match intent {
        Intent::TogglePlay => ControlState {
            is_paused: !st.is_paused,
            is_repeating: st.is_repeating,
            is_random: st.is_random,
        },
        Intent::ToggleShuffle => ControlState {
            is_paused: st.is_paused,
            is_repeating: st.is_repeating,
            is_random: !st.is_random,
        },
        Intent::ToggleRepeat => ControlState {
            is_paused: st.is_paused,
            is_repeating: !st.is_repeating,
            is_random: st.is_random,
        },
        _ => st,
    }
}

fn cmd2(a: &str, b: &str) -> (c: Command)
    ensures
        c@ == seq![a@, b@],
{
    let mut args: Vec<String> = Vec::new();
    args.push(String::from_str(a));
    args.push(String::from_str(b));
    proof {
        assert(strs_view(args@) =~= seq![a@, b@]);
    }
    Command { args }
}

fn cmd4(a: &str, b: &str, flag: &str, value: String) -> (c: Command)
    ensures
        c@ == seq![a@, b@, flag@, value@],
{
    let ghost vv = value@;
    let mut args: Vec<String> = Vec::new();
    args.push(String::from_str(a));
    args.push(String::from_str(b));
    args.push(String::from_str(flag));
    args.push(value);
    proof {
        assert(strs_view(args@) =~= seq![a@, b@, flag@, vv]);
    }
    Command { args }
}

/// Maps one user intent to exactly one command for the external tool,
/// applying the optimistic flag flip the intent calls for. An intent with
/// an unsafe name is refused and changes nothing.
pub fn dispatch(st: &mut ControlState, intent: &Intent) -> (r: Result<Command, DispatchError>)
    ensures
        r is Ok <==> intent_admissible(*intent),
        r matches Result::Ok(c) ==> c@ == spec_command(*old(st), *intent) && *final(st)
            == spec_next_state(*old(st), *intent),
        r is Err ==> *final(st) == *old(st) && r == Result::<Command, DispatchError>::Err(
            DispatchError::UnsafeName,
        ),
{
    match intent {
        Intent::TogglePlay => {
            let c = if st.is_paused {
                cmd2("mpd", "play")
            } else {
                cmd2("mpd", "pause")
            };
            st.is_paused = !st.is_paused;
            Result::Ok(c)
        },
        Intent::Next => Result::Ok(cmd2("mpd", "next")),
        Intent::Prev => Result::Ok(cmd2("mpd", "previous")),
        Intent::ToggleShuffle => {
            st.is_random = !st.is_random;
            Result::Ok(cmd2("mpd", "shuffle"))
        },
        Intent::ToggleRepeat => {
            st.is_repeating = !st.is_repeating;
            Result::Ok(cmd2("mpd", "repeat"))
        },
        Intent::Seek(p) => Result::Ok(cmd4("mpd", "seek", "--percentage", u64_dec(*p))),
        Intent::PlaySong(n) => {
            if !check_name(n.as_str()) {
                return Result::Err(DispatchError::UnsafeName);
            }
            Result::Ok(cmd4("play", "song", "--name", n.clone()))
        },
        Intent::PlayPlaylist(n) => {
            if !check_name(n.as_str()) {
                return Result::Err(DispatchError::UnsafeName);
            }
            Result::Ok(cmd4("play", "playlist", "--name", n.clone()))
        },
        Intent::DeleteSong(n) => {
            if !check_name(n.as_str()) {
                return Result::Err(DispatchError::UnsafeName);
            }
            Result::Ok(cmd4("song", "delete", "--name", n.clone()))
        },
        Intent::AddToQueue(n) => {
            if !check_name(n.as_str()) {
                return Result::Err(DispatchError::UnsafeName);
            }
            Result::Ok(cmd4("mpd", "queue-add", "--song-name", n.clone()))
        },
        Intent::RemoveFromQueue(n) => {
            if !check_name(n.as_str()) {
                return Result::Err(DispatchError::UnsafeName);
            }
            Result::Ok(cmd4("mpd", "queue-remove", "--song-name", n.clone()))
        },
        Intent::ClearQueue => Result::Ok(cmd2("mpd", "clear")),
        Intent::ShuffleQueue => Result::Ok(cmd2("mpd", "queue-shuffle")),
    }
}

/// Deletes the song at `index` of a locally held list: the delete command
/// is built from the stored name — the list index is the identity, the raw
/// name appears only at the external boundary — and the entry leaves the
/// local list at once, without a confirmation round-trip.
pub fn delete_song_at(songs: &mut Vec<Song>, index: usize) -> (r: Result<
    Command,
    DispatchError,
>)
    ensures
        index < old(songs)@.len() && name_is_safe(old(songs)@[index as int].name@) ==> (
        r matches Result::Ok(c) && c@ == seq![
            "song"@,
            "delete"@,
            "--name"@,
            old(songs)@[index as int].name@,
        ] && final(songs)@ == old(songs)@.remove(index as int)),
        index >= old(songs)@.len() ==> r == Result::<Command, DispatchError>::Err(
            DispatchError::NoSuchEntry,
        ) && *final(songs) == *old(songs),
        index < old(songs)@.len() && !name_is_safe(old(songs)@[index as int].name@) ==> r
            == Result::<Command, DispatchError>::Err(DispatchError::UnsafeName) && *final(songs)
            == *old(songs),
{
    if index >= songs.len() {
        return Result::Err(DispatchError::NoSuchEntry);
    }
    if !check_name(songs[index].name.as_str()) {
        return Result::Err(DispatchError::UnsafeName);
    }
    let song = songs.remove(index);
    Result::Ok(cmd4("song", "delete", "--name", song.name))
}

/// The queries this core issues, each a fixed argument vector: the song
/// list, the playlist list, the current track, the status and the queue.
pub fn song_list_command() -> (c: Command)
    ensures
        c@ == seq!["song"@, "list"@],
{
    cmd2("song", "list")
}

/// The playlist-list query.
pub fn playlist_list_command() -> (c: Command)
    ensures
        c@ == seq!["playlist"@, "list"@],
{
    cmd2("playlist", "list")
}

/// The current-track query.
pub fn current_command() -> (c: Command)
    ensures
        c@ == seq!["mpd"@, "current"@],
{
    cmd2("mpd", "current")
}

/// The status query.
pub fn status_command() -> (c: Command)
    ensures
        c@ == seq!["mpd"@, "status"@],
{
    cmd2("mpd", "status")
}

/// The queue query.
pub fn queue_command() -> (c: Command)
    ensures
        c@ == seq!["mpd"@, "queue"@],
{
    cmd2("mpd", "queue")
}

/// Clearing the queue is idempotent at this layer: the intent is always
/// accepted, maps to the same clear command whatever the local state —
/// so two dispatches in a row both issue it — and leaves the local flags
/// untouched. The daemon accepts clearing an already empty queue.
pub proof fn lemma_clear_queue_idempotent(st1: ControlState, st2: ControlState)
    ensures
        intent_admissible(Intent::ClearQueue),
        spec_command(st1, Intent::ClearQueue) == spec_command(st2, Intent::ClearQueue),
        spec_command(st1, Intent::ClearQueue) == seq!["mpd"@, "clear"@],
        spec_next_state(st1, Intent::ClearQueue) == st1,
{
}

/// A seek passes its percentage through unmodified for every value — 0 and
/// 100 included — as the exact decimal numeral, with no clamping and no
/// special-casing of out-of-range values, and flips no local flag.
pub proof fn lemma_seek_passes_through(st: ControlState, p: u64)
    ensures
        intent_admissible(Intent::Seek(p)),
        spec_command(st, Intent::Seek(p)) == seq![
            "mpd"@,
            "seek"@,
            "--percentage"@,
            dec_of(p as nat),
        ],
        spec_next_state(st, Intent::Seek(p)) == st,
{
}

} // verus!
