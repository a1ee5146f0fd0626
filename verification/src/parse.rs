//! The response parsers: pure functions from the daemon tool's raw text
//! output to the typed model. The song-list and status parsers are strict
//! and fail fast on malformed input; the current-track parser is lenient and
//! collapses every deviation into "no current track". Both behaviours are
//! deliberate and kept apart.

use vstd::prelude::*;
use vstd::string::StrSliceExecFns;
use vstd::string::StringExecFns;

use crate::model::Song;
use crate::model::SongView;
use crate::model::Status;
use crate::model::Time;
use crate::model::songs_view;
use crate::text::SepClass;
use crate::text::has_prefix;
use crate::text::is_blank;
use crate::text::is_blank_str;
use crate::text::parse_u32_str;
use crate::text::spec_lines;
use crate::text::spec_parse_u32;
use crate::text::spec_trim;
use crate::text::split_lines;
use crate::text::split_on;
use crate::text::split_str;
use crate::text::starts_with;
use crate::text::str_eq;
use crate::text::strs_view;
use crate::text::trim_str;

verus! {

/// How a strict parser can fail: a song line without the `" - "` separator,
/// a status field without a value, a status key this core does not know, or
/// a status value that is not a boolean.
#[derive(Clone, Copy, Debug, PartialEq, Eq, Structural)]
pub enum ParseError {
    MissingSeparator,
    MissingValue,
    InvalidKey,
    InvalidValue,
}

/// Index of the first occurrence of the separator `" - "` in `s`, if any.
pub open spec fn find_song_sep(s: Seq<char>) -> Option<int>
    decreases s.len(),
{
    if s.len() < 3 {
        Option::None
    } else if s[0] == ' ' && s[1] == '-' && s[2] == ' ' {
        Option::Some(0)
    } else {
        match find_song_sep(s.drop_first()) {
            Option::None => Option::None,
            Option::Some(i) => Option::Some(i + 1),
        }
    }
}

fn find_song_sep_str(s: &str) -> (r: Option<usize>)
    ensures
        match r {
            Option::Some(i) => find_song_sep(s@) == Option::Some(i as int) && i + 3 <= s@.len(),
            Option::None => find_song_sep(s@) is None,
        },
    decreases s@.len(),
{
    let n = s.unicode_len();
    if n < 3 {
        Option::None
    } else if s.get_char(0) == ' ' && s.get_char(1) == '-' && s.get_char(2) == ' ' {
        Option::Some(0)
    } else {
        let rest = s.substring_char(1, n);
        proof {
            assert(rest@ =~= s@.drop_first());
        }
        match find_song_sep_str(rest) {
            Option::None => Option::None,
            Option::Some(i) => Option::Some(i + 1),
        }
    }
}

/// A song line splits once on the first `" - "` into the name before it and
/// the artist after it; a line without the separator is malformed.
pub open spec fn spec_split_song_line(l: Seq<char>) -> Option<SongView> {
    match find_song_sep(l) {
        Option::None => Option::None,
        Option::Some(i) => Option::Some(
            SongView { name: l.subrange(0, i), artist: l.subrange(i + 3, l.len() as int) },
        ),
    }
}

fn split_song_line(l: &str) -> (r: Option<Song>)
    ensures
        match r {
            Option::Some(song) => spec_split_song_line(l@) == Option::Some(song@),
            Option::None => spec_split_song_line(l@) is None,
        },
{
    let n = l.unicode_len();
    match find_song_sep_str(l) {
        Option::None => Option::None,
        Option::Some(i) => {
            let name = String::from_str(l.substring_char(0, i));
            let artist = String::from_str(l.substring_char(i + 3, n));
            Option::Some(Song { name, artist })
        },
    }
}

/// The lines that carry content, in order: blank lines around and between
/// records are stripped before list parsing.
pub open spec fn nonblank(ls: Seq<Seq<char>>) -> Seq<Seq<char>>
    decreases ls.len(),
{
    if ls.len() == 0 {
        Seq::empty()
    } else if is_blank(ls[0]) {
        nonblank(ls.drop_first())
    } else {
        seq![ls[0]] + nonblank(ls.drop_first())
    }
}

/// The content lines of a whole text.
pub open spec fn nonblank_lines(text: Seq<char>) -> Seq<Seq<char>> {
    nonblank(spec_lines(text))
}

/// Parsing a list of song lines fails as a whole as soon as one line is
/// malformed; otherwise it yields one song per line, in order.
pub open spec fn parse_song_lines(ls: Seq<Seq<char>>) -> Option<Seq<SongView>>
    decreases ls.len(),
{
    if ls.len() == 0 {
        Option::Some(Seq::empty())
    } else {
        match spec_split_song_line(ls[0]) {
            Option::None => Option::None,
            Option::Some(sv) => match parse_song_lines(ls.drop_first()) {
                Option::None => Option::None,
                Option::Some(rest) => Option::Some(seq![sv] + rest),
            },
        }
    }
}

/// What the song-list parser returns on a whole text.
pub open spec fn spec_parse_songs(text: Seq<char>) -> Result<Seq<SongView>, ParseError> {
    match parse_song_lines(nonblank_lines(text)) {
        Option::Some(s) => Result::Ok(s),
        Option::None => Result::Err(ParseError::MissingSeparator),
    }
}

/// A malformed line anywhere poisons the whole list parse.
proof fn lemma_parse_song_lines_none_suffix(ls: Seq<Seq<char>>, i: int)
    requires
        0 <= i <= ls.len(),
        parse_song_lines(ls.subrange(i, ls.len() as int)) is None,
    ensures
        parse_song_lines(ls) is None,
    decreases i,
{
    if i == 0 {
        assert(ls.subrange(0, ls.len() as int) =~= ls);
    } else {
        assert(ls.drop_first().subrange(i - 1, ls.drop_first().len() as int) =~= ls.subrange(
            i,
            ls.len() as int,
        ));
        lemma_parse_song_lines_none_suffix(ls.drop_first(), i - 1);
    }
}

/// When every line splits, the whole list parses, one song per line, in
/// order, each the name/artist pair of its line.
pub proof fn lemma_song_lines_all_parse(ls: Seq<Seq<char>>)
    requires
        forall|i: int| 0 <= i < ls.len() ==> #[trigger] spec_split_song_line(ls[i]) is Some,
    ensures
        parse_song_lines(ls) is Some,
        parse_song_lines(ls)->Some_0.len() == ls.len(),
        forall|i: int|
            0 <= i < ls.len() ==> #[trigger] parse_song_lines(ls)->Some_0[i]
                == spec_split_song_line(ls[i])->Some_0,
    decreases ls.len(),
{
    if ls.len() > 0 {
        lemma_song_lines_all_parse(ls.drop_first());
    }
}

/// For all well-formed song-list text whose content lines each contain the
/// `" - "` separator, the parser returns exactly one song per content line,
/// preserving their order: song `i` holds the name and artist of line `i`.
pub proof fn lemma_song_list_parses_completely(text: Seq<char>)
    requires
        forall|i: int|
            0 <= i < nonblank_lines(text).len() ==> #[trigger] find_song_sep(
                nonblank_lines(text)[i],
            ) is Some,
    ensures
        spec_parse_songs(text) is Ok,
        spec_parse_songs(text)->Ok_0.len() == nonblank_lines(text).len(),
        forall|i: int|
            0 <= i < nonblank_lines(text).len() ==> #[trigger] spec_parse_songs(text)->Ok_0[i]
                == spec_split_song_line(nonblank_lines(text)[i])->Some_0,
{
    lemma_song_lines_all_parse(nonblank_lines(text));
}

/// For any content line lacking the separator, song-list parsing fails
/// entirely: no partial list is returned.
pub proof fn lemma_song_list_fails_entirely(text: Seq<char>, i: int)
    requires
        0 <= i < nonblank_lines(text).len(),
        find_song_sep(nonblank_lines(text)[i]) is None,
    ensures
        spec_parse_songs(text) == Result::<Seq<SongView>, ParseError>::Err(
            ParseError::MissingSeparator,
        ),
{
    let ls = nonblank_lines(text);
    assert(ls.subrange(i, ls.len() as int)[0] == ls[i]);
    assert(parse_song_lines(ls.subrange(i, ls.len() as int)) is None);
    lemma_parse_song_lines_none_suffix(ls, i);
}

/// Drops blank lines from an already split text, keeping the views tied to
/// [`nonblank`].
fn keep_nonblank(lines: Vec<String>) -> (r: Vec<String>)
    ensures
        strs_view(r@) == nonblank(strs_view(lines@)),
{
    let ghost lsv = strs_view(lines@);
    let n = lines.len();
    let mut out: Vec<String> = Vec::new();
    let mut i: usize = 0;
    proof {
        assert(lsv.subrange(0, n as int) =~= lsv);
        assert(strs_view(out@) + nonblank(lsv) =~= nonblank(lsv));
    }
    while i < n
        invariant
            i <= n,
            n == lines.len(),
            lsv == strs_view(lines@),
            strs_view(out@) + nonblank(lsv.subrange(i as int, n as int)) == nonblank(lsv),
        decreases n - i,
    {
        proof {
            assert(lsv[i as int] == lines@[i as int]@);
            let rest = lsv.subrange(i as int, n as int);
            assert(rest.drop_first() =~= lsv.subrange(i + 1, n as int));
            assert(rest[0] == lsv[i as int]);
        }
        let ghost prev = out@;
        if !is_blank_str(lines[i].as_str()) {
            out.push(lines[i].clone());
            proof {
                assert(strs_view(out@) =~= strs_view(prev).push(lsv[i as int]));
                assert(strs_view(prev).push(lsv[i as int]) + nonblank(
                    lsv.subrange(i + 1, n as int),
                ) =~= strs_view(prev) + (seq![lsv[i as int]] + nonblank(
                    lsv.subrange(i + 1, n as int),
                )));
            }
        }
        i = i + 1;
    }
    proof {
        assert(lsv.subrange(n as int, n as int) =~= Seq::<Seq<char>>::empty());
        assert(strs_view(out@) + Seq::<Seq<char>>::empty() =~= strs_view(out@));
    }
    out
}

/// Splits song-list output into non-empty lines and each line once on
/// `" - "` into a song; one line without the separator fails the whole
/// parse, exactly as [`spec_parse_songs`] describes.
pub fn parse_songs(text: &str) -> (r: Result<Vec<Song>, ParseError>)
    ensures
        match r {
            Result::Ok(v) => spec_parse_songs(text@) == Result::<Seq<SongView>, ParseError>::Ok(
                songs_view(v@),
            ),
            Result::Err(e) => spec_parse_songs(text@) == Result::<Seq<SongView>, ParseError>::Err(
                e,
            ),
        },
{
    let lines = keep_nonblank(split_lines(text));
    let ghost nbv = strs_view(lines@);
    let n = lines.len();
    let mut out: Vec<Song> = Vec::new();
    let mut i: usize = n;
    while i > 0
        invariant
            0 <= i <= n,
            n == lines.len(),
            nbv == strs_view(lines@),
            nbv == nonblank_lines(text@),
            parse_song_lines(nbv.subrange(i as int, n as int)) == Option::Some(songs_view(out@)),
        decreases i,
    {
        proof {
            assert(nbv[i - 1] == lines@[i - 1]@);
        }
        let ghost tail = nbv.subrange(i as int, n as int);
        let ghost full = nbv.subrange(i - 1, n as int);
        proof {
            assert(full.drop_first() =~= tail);
            assert(full[0] == nbv[i - 1]);
        }
        match split_song_line(lines[i - 1].as_str()) {
            Option::None => {
                proof {
                    assert(parse_song_lines(full) is None);
                    lemma_parse_song_lines_none_suffix(nbv, i - 1);
                }
                return Result::Err(ParseError::MissingSeparator);
            },
            Option::Some(song) => {
                let ghost prev = out@;
                out.insert(0, song);
                proof {
                    assert(songs_view(out@) =~= seq![song@] + songs_view(prev));
                    assert(parse_song_lines(full) == Option::Some(songs_view(out@)));
                }
            },
        }
        i = i - 1;
    }
    proof {
        assert(nbv.subrange(0, n as int) =~= nbv);
    }
    Result::Ok(out)
}

/// What the playlist-list parser returns: each content line is a playlist
/// name, verbatim.
pub open spec fn spec_parse_playlists(text: Seq<char>) -> Seq<Seq<char>> {
    nonblank_lines(text)
}

/// Splits playlist-list output into non-empty lines, each a playlist name
/// taken verbatim; nothing in a name is interpreted.
pub fn parse_playlists(text: &str) -> (r: Vec<String>)
    ensures
        strs_view(r@) == spec_parse_playlists(text@),
{
    keep_nonblank(split_lines(text))
}

/// What reading a playback-time line yields: the line is tokenized on the
/// delimiters `: / ( % )` into at least six fields, of which the first five
/// are the numbers of `MM:SS/MM:SS (P%)`; a short line, a non-numeric field
/// or a percentage beyond 100 yields nothing.
pub open spec fn spec_time_from_str(s: Seq<char>) -> Option<Time> {
    let parts = split_on(s, SepClass::TimeDelim);
    if parts.len() >= 6 {
        match (
            spec_parse_u32(parts[0]),
            spec_parse_u32(parts[1]),
            spec_parse_u32(parts[2]),
            spec_parse_u32(spec_trim(parts[3])),
            spec_parse_u32(parts[4]),
        ) {
            (
                Option::Some(min),
                Option::Some(sec),
                Option::Some(tot_min),
                Option::Some(tot_sec),
                Option::Some(perc),
            ) => if perc <= 100 {
                Option::Some(Time { min, sec, tot_min, tot_sec, perc: perc as u8 })
            } else {
                Option::None
            },
            _ => Option::None,
        }
    } else {
        Option::None
    }
}

impl Time {
    /// Reads a playback-time line such as `01:23/04:56 (45%)` as
    /// [`spec_time_from_str`] describes; every time returned satisfies the
    /// percentage invariant.
    pub fn from_str(s: &str) -> (r: Option<Time>)
        ensures
            r == spec_time_from_str(s@),
            r matches Option::Some(t) ==> t.wf(),
    {
        let parts = split_str(s, SepClass::TimeDelim);
        let ghost pv = split_on(s@, SepClass::TimeDelim);
        if parts.len() < 6 {
            return Option::None;
        }
        proof {
            assert(pv[0] == parts@[0]@);
            assert(pv[1] == parts@[1]@);
            assert(pv[2] == parts@[2]@);
            assert(pv[3] == parts@[3]@);
            assert(pv[4] == parts@[4]@);
        }
        let min = match parse_u32_str(parts[0].as_str()) {
            Option::Some(v) => v,
            Option::None => {
                return Option::None;
            },
        };
        let sec = match parse_u32_str(parts[1].as_str()) {
            Option::Some(v) => v,
            Option::None => {
                return Option::None;
            },
        };
        let tot_min = match parse_u32_str(parts[2].as_str()) {
            Option::Some(v) => v,
            Option::None => {
                return Option::None;
            },
        };
        let tot_sec = match parse_u32_str(trim_str(parts[3].as_str())) {
            Option::Some(v) => v,
            Option::None => {
                return Option::None;
            },
        };
        let perc = match parse_u32_str(parts[4].as_str()) {
            Option::Some(v) => v,
            Option::None => {
                return Option::None;
            },
        };
        if perc > 100 {
            return Option::None;
        }
        Option::Some(Time { min, sec, tot_min, tot_sec, perc: perc as u8 })
    }
}

/// What the current-track parser yields: exactly three lines, the first two
/// carrying the song name and artist behind their fixed prefixes, the third
/// a playback-time line. Any deviation yields `None` — absence of a current
/// track — never a hard error, since "nothing playing" and "unparseable"
/// cannot be told apart from text alone.
pub open spec fn spec_parse_current(text: Seq<char>) -> Option<(SongView, Time)> {
    let lines = spec_lines(text);
    if lines.len() == 3 && starts_with(lines[0], "Current song: "@) && starts_with(
        lines[1],
        "Artist: "@,
    ) {
        match spec_time_from_str(lines[2]) {
            Option::None => Option::None,
            Option::Some(t) => Option::Some(
                (
                    SongView {
                        name: lines[0].subrange("Current song: "@.len() as int, lines[0].len() as int),
                        artist: lines[1].subrange("Artist: "@.len() as int, lines[1].len() as int),
                    },
                    t,
                ),
            ),
        }
    } else {
        Option::None
    }
}

/// Reads current-track output as [`spec_parse_current`] describes.
pub fn parse_current(text: &str) -> (r: Option<(Song, Time)>)
    ensures
        match r {
            Option::Some((song, t)) => spec_parse_current(text@) == Option::Some((song@, t))
                && t.wf(),
            Option::None => spec_parse_current(text@) is None,
        },
{
    let lines = split_lines(text);
    let ghost lv = spec_lines(text@);
    if lines.len() != 3 {
        return Option::None;
    }
    proof {
        assert(lv[0] == lines@[0]@);
        assert(lv[1] == lines@[1]@);
        assert(lv[2] == lines@[2]@);
    }
    let name_prefix = "Current song: ";
    let artist_prefix = "Artist: ";
    if !has_prefix(lines[0].as_str(), name_prefix) {
        return Option::None;
    }
    if !has_prefix(lines[1].as_str(), artist_prefix) {
        return Option::None;
    }
    let time = match Time::from_str(lines[2].as_str()) {
        Option::Some(t) => t,
        Option::None => {
            return Option::None;
        },
    };
    let line0 = lines[0].as_str();
    let line1 = lines[1].as_str();
    let name = String::from_str(
        line0.substring_char(name_prefix.unicode_len(), line0.unicode_len()),
    );
    let artist = String::from_str(
        line1.substring_char(artist_prefix.unicode_len(), line1.unicode_len()),
    );
    Option::Some((Song { name, artist }, time))
}

/// Reading a boolean the way the standard library's `parse` does: exactly
/// `true` or `false`.
pub open spec fn spec_parse_bool(s: Seq<char>) -> Option<bool> {
    if s == "true"@ {
        Option::Some(true)
    } else if s == "false"@ {
        Option::Some(false)
    } else {
        Option::None
    }
}

/// One tab-separated status field, `Key: value`, folded into the status
/// read so far. The status parser is strict where the current-track parser
/// is lenient: an unknown key or a non-boolean value is a hard error, since
/// it means the external tool broke its output contract.
pub open spec fn apply_status_part(st: Status, part: Seq<char>) -> Result<Status, ParseError> {
    let segs = split_on(part, SepClass::Colon);
    if segs.len() < 2 {
        Result::Err(ParseError::MissingValue)
    } else {
        let key = spec_trim(segs[0]);
        let value = spec_parse_bool(spec_trim(segs[1]));
        if key == "Pause"@ {
            match value {
                Option::Some(v) => Result::Ok(
                    Status { repeat: st.repeat, random: st.random, is_paused: v },
                ),
                Option::None => Result::Err(ParseError::InvalidValue),
            }
        } else if key == "Random"@ {
            match value {
                Option::Some(v) => Result::Ok(
                    Status { repeat: st.repeat, random: v, is_paused: st.is_paused },
                ),
                Option::None => Result::Err(ParseError::InvalidValue),
            }
        } else if key == "Repeat"@ {
            match value {
                Option::Some(v) => Result::Ok(
                    Status { repeat: v, random: st.random, is_paused: st.is_paused },
                ),
                Option::None => Result::Err(ParseError::InvalidValue),
            }
        } else {
            Result::Err(ParseError::InvalidKey)
        }
    }
}

/// The status fields folded left to right over the all-off start state;
/// the first bad field stops the parse.
pub open spec fn parse_status_parts(st: Status, parts: Seq<Seq<char>>) -> Result<
    Status,
    ParseError,
>
    decreases parts.len(),
{
    if parts.len() == 0 {
        Result::Ok(st)
    } else {
        match apply_status_part(st, parts[0]) {
            Result::Err(e) => Result::Err(e),
            Result::Ok(st2) => parse_status_parts(st2, parts.drop_first()),
        }
    }
}

/// What the status parser returns on a whole text: its tab-separated
/// fields folded over a status with every flag off.
pub open spec fn spec_parse_status(text: Seq<char>) -> Result<Status, ParseError> {
    parse_status_parts(
        Status { repeat: false, random: false, is_paused: false },
        split_on(text, SepClass::Tab),
    )
}

fn apply_status_field(st: Status, part: &str) -> (r: Result<Status, ParseError>)
    ensures
        r == apply_status_part(st, part@),
{
    let segs = split_str(part, SepClass::Colon);
    if segs.len() < 2 {
        return Result::Err(ParseError::MissingValue);
    }
    proof {
        assert(split_on(part@, SepClass::Colon)[0] == segs@[0]@);
        assert(split_on(part@, SepClass::Colon)[1] == segs@[1]@);
    }
    let key = trim_str(segs[0].as_str());
    let value_text = trim_str(segs[1].as_str());
    let value: Option<bool> = if str_eq(value_text, "true") {
        Option::Some(true)
    } else if str_eq(value_text, "false") {
        Option::Some(false)
    } else {
        Option::None
    };
    if str_eq(key, "Pause") {
        match value {
            Option::Some(v) => Result::Ok(
                Status { repeat: st.repeat, random: st.random, is_paused: v },
            ),
            Option::None => Result::Err(ParseError::InvalidValue),
        }
    } else if str_eq(key, "Random") {
        match value {
            Option::Some(v) => Result::Ok(
                Status { repeat: st.repeat, random: v, is_paused: st.is_paused },
            ),
            Option::None => Result::Err(ParseError::InvalidValue),
        }
    } else if str_eq(key, "Repeat") {
        match value {
            Option::Some(v) => Result::Ok(
                Status { repeat: v, random: st.random, is_paused: st.is_paused },
            ),
            Option::None => Result::Err(ParseError::InvalidValue),
        }
    } else {
        Result::Err(ParseError::InvalidKey)
    }
}

/// Reads status output as [`spec_parse_status`] describes: tab-separated
/// `Key: value` fields with exactly the keys `Pause`, `Random` and `Repeat`
/// and boolean values.
pub fn parse_status(text: &str) -> (r: Result<Status, ParseError>)
    ensures
        r == spec_parse_status(text@),
{
    let parts = split_str(text, SepClass::Tab);
    let ghost pv = split_on(text@, SepClass::Tab);
    let n = parts.len();
    let mut st = Status { repeat: false, random: false, is_paused: false };
    let mut i: usize = 0;
    proof {
        assert(pv.subrange(0, n as int) =~= pv);
    }
    while i < n
        invariant
            i <= n,
            n == parts.len(),
            pv == strs_view(parts@),
            spec_parse_status(text@) == parse_status_parts(st, pv.subrange(i as int, n as int)),
        decreases n - i,
    {
        proof {
            let rest = pv.subrange(i as int, n as int);
            assert(rest[0] == pv[i as int]);
            assert(pv[i as int] == parts@[i as int]@);
            assert(rest.drop_first() =~= pv.subrange(i + 1, n as int));
        }
        match apply_status_field(st, parts[i].as_str()) {
            Result::Err(e) => {
                return Result::Err(e);
            },
            Result::Ok(st2) => {
                st = st2;
            },
        }
        i = i + 1;
    }
    proof {
        assert(pv.subrange(n as int, n as int) =~= Seq::<Seq<char>>::empty());
    }
    Result::Ok(st)
}

} // verus!
