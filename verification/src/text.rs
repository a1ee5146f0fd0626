//! Character-level groundwork shared by the response parsers: splitting on
//! separator characters, line normalisation, whitespace trimming, prefix
//! tests and decimal number reading. Every executable function here is
//! proved against a spec function that defines the operation over `Seq<char>`.

use vstd::prelude::*;
use vstd::string::StrSliceExecFns;
use vstd::string::StringExecFns;

verus! {

/// The separator classes the daemon's output formats use: a newline between
/// records, a tab between status fields, a colon between a key and its
/// value, and the delimiter set of the playback-time line.
#[derive(Clone, Copy, Debug, PartialEq, Eq, Structural)]
pub enum SepClass {
    Newline,
    Tab,
    Colon,
    TimeDelim,
}

/// Whether `c` separates fields under the class `class`.
pub open spec fn sep_matches(class: SepClass, c: char) -> bool {
    match class {
        SepClass::Newline => c == '\n',
        SepClass::Tab => c == '\t',
        SepClass::Colon => c == ':',
        SepClass::TimeDelim => c == ':' || c == '/' || c == '(' || c == '%' || c == ')',
    }
}

/// Executable test for [`sep_matches`].
pub fn is_sep(class: SepClass, c: char) -> (r: bool)
    ensures
        r == sep_matches(class, c),
{
    match class {
        SepClass::Newline => c == '\n',
        SepClass::Tab => c == '\t',
        SepClass::Colon => c == ':',
        SepClass::TimeDelim => c == ':' || c == '/' || c == '(' || c == '%' || c == ')',
    }
}

/// Splitting `s` on the separators of `class`, with `cur` the piece read so
/// far: the piece under construction is closed by each separator, and what
/// remains open at the end is the last piece. A split therefore always
/// yields at least one piece, and `n` separators yield `n + 1` pieces.
pub open spec fn split_from(s: Seq<char>, class: SepClass, cur: Seq<char>) -> Seq<Seq<char>>
    decreases s.len(),
{
    if s.len() == 0 {
        seq![cur]
    } else if sep_matches(class, s[0]) {
        seq![cur] + split_from(s.drop_first(), class, Seq::empty())
    } else {
        split_from(s.drop_first(), class, cur.push(s[0]))
    }
}

/// The pieces of `s` between separators of `class`, in order.
pub open spec fn split_on(s: Seq<char>, class: SepClass) -> Seq<Seq<char>> {
    split_from(s, class, Seq::empty())
}

/// The views of a vector of owned strings.
pub open spec fn strs_view(v: Seq<String>) -> Seq<Seq<char>> {
    v.map_values(|x: String| x@)
}

/// A text without separators splits into the single piece `cur + s`.
proof fn lemma_split_from_no_sep(s: Seq<char>, class: SepClass, cur: Seq<char>)
    requires
        forall|j: int| 0 <= j < s.len() ==> !sep_matches(class, s[j]),
    ensures
        split_from(s, class, cur) == seq![cur + s],
    decreases s.len(),
{
    if s.len() == 0 {
        assert(cur + s =~= cur);
    } else {
        lemma_split_from_no_sep(s.drop_first(), class, cur.push(s[0]));
        assert(cur.push(s[0]) + s.drop_first() =~= cur + s);
    }
}

/// With the first separator at index `i`, the split is the piece before it
/// followed by the split of what comes after it.
proof fn lemma_split_from_found(s: Seq<char>, class: SepClass, cur: Seq<char>, i: int)
    requires
        0 <= i < s.len(),
        sep_matches(class, s[i]),
        forall|j: int| 0 <= j < i ==> !sep_matches(class, s[j]),
    ensures
        split_from(s, class, cur) == seq![cur + s.subrange(0, i)] + split_on(
            s.subrange(i + 1, s.len() as int),
            class,
        ),
    decreases i,
{
    if i == 0 {
        assert(cur + s.subrange(0, 0) =~= cur);
        assert(s.drop_first() =~= s.subrange(1, s.len() as int));
    } else {
        lemma_split_from_found(s.drop_first(), class, cur.push(s[0]), i - 1);
        assert(cur.push(s[0]) + s.drop_first().subrange(0, i - 1) =~= cur + s.subrange(0, i));
        assert(s.drop_first().subrange(i - 1 + 1, s.drop_first().len() as int) =~= s.subrange(
            i + 1,
            s.len() as int,
        ));
    }
}

/// Index of the first separator of `class` in `s`, if any.
fn find_first_sep(s: &str, class: SepClass) -> (r: Option<usize>)
    ensures
        match r {
            Option::Some(i) => i < s@.len() && sep_matches(class, s@[i as int]) && (forall|j: int|
                0 <= j < i ==> !sep_matches(class, s@[j])),
            Option::None => forall|j: int| 0 <= j < s@.len() ==> !sep_matches(class, s@[j]),
        },
{
    let n = s.unicode_len();
    let mut i: usize = 0;
    while i < n
        invariant
            n == s@.len(),
            i <= n,
            forall|j: int| 0 <= j < i ==> !sep_matches(class, s@[j]),
        decreases n - i,
    {
        if is_sep(class, s.get_char(i)) {
            return Option::Some(i);
        }
        i = i + 1;
    }
    Option::None
}

/// Splits `s` on the separators of `class`; the result always holds at
/// least one piece, and none of its pieces contains a separator.
pub fn split_str(s: &str, class: SepClass) -> (r: Vec<String>)
    ensures
        strs_view(r@) == split_on(s@, class),
    decreases s@.len(),
{
    let n = s.unicode_len();
    match find_first_sep(s, class) {
        Option::None => {
            let mut v: Vec<String> = Vec::new();
            v.push(String::from_str(s));
            proof {
                lemma_split_from_no_sep(s@, class, Seq::empty());
                assert(Seq::empty() + s@ =~= s@);
                assert(strs_view(v@) =~= seq![s@]);
            }
            v
        },
        Option::Some(i) => {
            let head = s.substring_char(0, i);
            let tail = s.substring_char(i + 1, n);
            let mut r = split_str(tail, class);
            let ghost rest_views = strs_view(r@);
            r.insert(0, String::from_str(head));
            proof {
                lemma_split_from_found(s@, class, Seq::empty(), i as int);
                assert(Seq::empty() + s@.subrange(0, i as int) =~= s@.subrange(0, i as int));
                assert(strs_view(r@) =~= seq![head@] + rest_views);
                assert(strs_view(r@) =~= split_on(s@, class));
            }
            r
        },
    }
}

/// A line with a trailing carriage return loses it; the daemon's output is
/// read as text whatever the platform's line ending.
pub open spec fn strip_cr(l: Seq<char>) -> Seq<char> {
    if l.len() > 0 && l[l.len() - 1] == '\r' {
        l.drop_last()
    } else {
        l
    }
}

/// The lines of `s`: the pieces between newlines, without a final empty
/// piece after a terminating newline, and each without a trailing carriage
/// return.
pub open spec fn spec_lines(s: Seq<char>) -> Seq<Seq<char>> {
    let parts = split_on(s, SepClass::Newline);
    let trimmed = if parts.len() > 0 && parts.last().len() == 0 {
        parts.drop_last()
    } else {
        parts
    };
    trimmed.map_values(|l: Seq<char>| strip_cr(l))
}

/// Splits `s` into lines as [`spec_lines`] describes.
pub fn split_lines(s: &str) -> (r: Vec<String>)
    ensures
        strs_view(r@) == spec_lines(s@),
{
    let mut parts = split_str(s, SepClass::Newline);
    let ghost raw = strs_view(parts@);
    if parts.len() > 0 && parts[parts.len() - 1].as_str().unicode_len() == 0 {
        parts.pop();
        proof {
            assert(strs_view(parts@) =~= raw.drop_last());
        }
    }
    let ghost kept = strs_view(parts@);
    let mut out: Vec<String> = Vec::new();
    let mut i: usize = 0;
    while i < parts.len()
        invariant
            i <= parts.len(),
            kept == strs_view(parts@),
            out@.len() == i,
            forall|j: int| 0 <= j < i ==> #[trigger] out@[j]@ == strip_cr(kept[j]),
        decreases parts.len() - i,
    {
        let line = &parts[i];
        proof {
            assert(kept[i as int] == parts@[i as int]@);
        }
        let ghost prev = out@;
        let m = line.as_str().unicode_len();
        if m > 0 && line.as_str().get_char(m - 1) == '\r' {
            out.push(String::from_str(line.as_str().substring_char(0, m - 1)));
            proof {
                assert(line@.subrange(0, m - 1) =~= line@.drop_last());
            }
        } else {
            out.push(line.clone());
        }
        proof {
            assert(out@.last()@ == strip_cr(kept[i as int]));
            assert forall|j: int| 0 <= j < i + 1 implies #[trigger] out@[j]@ == strip_cr(
                kept[j],
            ) by {
                if j < i {
                    assert(out@[j] == prev[j]);
                }
            }
        }
        i = i + 1;
    }
    proof {
        assert forall|j: int| 0 <= j < out@.len() implies strs_view(out@)[j] == spec_lines(s@)[j]
            by {
            assert(out@[j]@ == strip_cr(kept[j]));
        }
        assert(strs_view(out@) =~= spec_lines(s@));
    }
    out
}

/// The whitespace the parsers strip: the blank characters that occur in the
/// daemon's output around values and at line ends.
pub open spec fn is_space(c: char) -> bool {
    c == ' ' || c == '\t' || c == '\n' || c == '\r'
}

/// `s` without leading whitespace.
pub open spec fn trim_front(s: Seq<char>) -> Seq<char>
    decreases s.len(),
{
    if s.len() > 0 && is_space(s[0]) {
        trim_front(s.drop_first())
    } else {
        s
    }
}

/// `s` without trailing whitespace.
pub open spec fn trim_back(s: Seq<char>) -> Seq<char>
    decreases s.len(),
{
    if s.len() > 0 && is_space(s[s.len() - 1]) {
        trim_back(s.drop_last())
    } else {
        s
    }
}

/// `s` without leading and trailing whitespace.
pub open spec fn spec_trim(s: Seq<char>) -> Seq<char> {
    trim_back(trim_front(s))
}

fn trim_front_str<'a>(s: &'a str) -> (r: &'a str)
    ensures
        r@ == trim_front(s@),
    decreases s@.len(),
{
    let n = s.unicode_len();
    if n > 0 {
        let c = s.get_char(0);
        if c == ' ' || c == '\t' || c == '\n' || c == '\r' {
            let t = s.substring_char(1, n);
            proof {
                assert(t@ =~= s@.drop_first());
            }
            trim_front_str(t)
        } else {
            s
        }
    } else {
        s
    }
}

fn trim_back_str<'a>(s: &'a str) -> (r: &'a str)
    ensures
        r@ == trim_back(s@),
    decreases s@.len(),
{
    let n = s.unicode_len();
    if n > 0 {
        let c = s.get_char(n - 1);
        if c == ' ' || c == '\t' || c == '\n' || c == '\r' {
            let t = s.substring_char(0, n - 1);
            proof {
                assert(t@ =~= s@.drop_last());
            }
            trim_back_str(t)
        } else {
            s
        }
    } else {
        s
    }
}

/// Strips leading and trailing whitespace, as [`spec_trim`] describes.
pub fn trim_str<'a>(s: &'a str) -> (r: &'a str)
    ensures
        r@ == spec_trim(s@),
{
    trim_back_str(trim_front_str(s))
}

/// A line is blank when nothing but whitespace stands on it; such lines are
/// stripped before list parsing.
pub open spec fn is_blank(s: Seq<char>) -> bool {
    spec_trim(s).len() == 0
}

/// Executable test for [`is_blank`].
pub fn is_blank_str(s: &str) -> (r: bool)
    ensures
        r == is_blank(s@),
{
    trim_str(s).unicode_len() == 0
}

/// Character-wise string equality.
pub fn str_eq(a: &str, b: &str) -> (r: bool)
    ensures
        r == (a@ == b@),
{
    let n = a.unicode_len();
    if n != b.unicode_len() {
        return false;
    }
    let mut i: usize = 0;
    while i < n
        invariant
            n == a@.len(),
            n == b@.len(),
            i <= n,
            forall|j: int| 0 <= j < i ==> a@[j] == b@[j],
        decreases n - i,
    {
        if a.get_char(i) != b.get_char(i) {
            return false;
        }
        i = i + 1;
    }
    proof {
        assert(a@ =~= b@);
    }
    true
}

/// Whether `p` is a prefix of `s`.
pub open spec fn starts_with(s: Seq<char>, p: Seq<char>) -> bool {
    p.len() <= s.len() && s.subrange(0, p.len() as int) == p
}

/// Executable test for [`starts_with`].
pub fn has_prefix(s: &str, p: &str) -> (r: bool)
    ensures
        r == starts_with(s@, p@),
{
    let m = p.unicode_len();
    if m > s.unicode_len() {
        return false;
    }
    let mut i: usize = 0;
    while i < m
        invariant
            m == p@.len(),
            m <= s@.len(),
            i <= m,
            forall|j: int| 0 <= j < i ==> s@[j] == p@[j],
        decreases m - i,
    {
        if s.get_char(i) != p.get_char(i) {
            proof {
                assert(s@.subrange(0, p@.len() as int)[i as int] != p@[i as int]);
            }
            return false;
        }
        i = i + 1;
    }
    proof {
        assert(s@.subrange(0, p@.len() as int) =~= p@);
    }
    true
}

/// Whether `c` is a decimal digit.
pub open spec fn is_digit(c: char) -> bool {
    ('0' as u32) <= (c as u32) && (c as u32) <= ('9' as u32)
}

/// The value of the digit `c`.
pub open spec fn digit_val(c: char) -> nat {
    ((c as u32) - ('0' as u32)) as nat
}

/// A non-empty sequence of decimal digits.
pub open spec fn seq_is_digits(s: Seq<char>) -> bool {
    s.len() > 0 && forall|i: int| 0 <= i < s.len() ==> is_digit(s[i])
}

/// The number the digit sequence `s` denotes.
pub open spec fn digits_val(s: Seq<char>) -> nat
    decreases s.len(),
{
    if s.len() == 0 {
        0
    } else {
        digits_val(s.drop_last()) * 10 + digit_val(s.last())
    }
}

/// The number an unsigned decimal literal denotes never shrinks as digits
/// are appended.
proof fn lemma_digits_val_prefix_le(s: Seq<char>, i: int)
    requires
        0 <= i <= s.len(),
    ensures
        digits_val(s.subrange(0, i)) <= digits_val(s),
    decreases s.len() - i,
{
    if i < s.len() {
        let t = s.subrange(0, i + 1);
        assert(t.drop_last() =~= s.subrange(0, i));
        lemma_digits_val_prefix_le(s, i + 1);
    } else {
        assert(s.subrange(0, i) =~= s);
    }
}

/// Reading an unsigned number the way the standard library's `parse` does
/// on `u32`: an optional leading plus sign, then at least one digit, and
/// the value within range; anything else is no number.
pub open spec fn spec_parse_u32(s: Seq<char>) -> Option<u32> {
    let body = if s.len() > 0 && s[0] == '+' {
        s.drop_first()
    } else {
        s
    };
    if seq_is_digits(body) && digits_val(body) <= u32::MAX {
        Option::Some(digits_val(body) as u32)
    } else {
        Option::None
    }
}

/// Reads an unsigned decimal number as [`spec_parse_u32`] describes.
pub fn parse_u32_str(s: &str) -> (r: Option<u32>)
    ensures
        r == spec_parse_u32(s@),
{
    let n = s.unicode_len();
    let start: usize = if n > 0 && s.get_char(0) == '+' {
        1
    } else {
        0
    };
    let ghost body = if s@.len() > 0 && s@[0] == '+' {
        s@.drop_first()
    } else {
        s@
    };
    proof {
        assert(body =~= s@.subrange(start as int, n as int));
    }
    if n == start {
        return Option::None;
    }
    let mut i: usize = start;
    let mut acc: u64 = 0;
    while i < n
        invariant
            n == s@.len(),
            start <= i <= n,
            start < n,
            body == (if s@.len() > 0 && s@[0] == '+' {
                s@.drop_first()
            } else {
                s@
            }),
            body == s@.subrange(start as int, n as int),
            forall|j: int| start <= j < i ==> is_digit(s@[j]),
            acc == digits_val(body.subrange(0, i - start)),
            acc <= u32::MAX,
        decreases n - i,
    {
        let c = s.get_char(i);
        let cv = c as u32;
        if cv < ('0' as u32) || cv > ('9' as u32) {
            proof {
                let k = i - start;
                assert(body[k] == s@[i as int]);
                assert(!is_digit(body[k]));
                assert(!seq_is_digits(body));
            }
            return Option::None;
        }
        let d: u64 = (cv - ('0' as u32)) as u64;
        let next: u64 = acc * 10 + d;
        proof {
            let p = body.subrange(0, i + 1 - start);
            assert(p.drop_last() =~= body.subrange(0, i - start));
            assert(p.last() == s@[i as int]);
            assert(digits_val(p) == acc * 10 + digit_val(s@[i as int]));
            assert(digit_val(s@[i as int]) == d);
            assert(digits_val(p) == next);
        }
        if next > (u32::MAX as u64) {
            proof {
                lemma_digits_val_prefix_le(body, i + 1 - start);
                assert(digits_val(body) > u32::MAX);
            }
            return Option::None;
        }
        acc = next;
        i = i + 1;
    }
    proof {
        assert(body.subrange(0, n - start) =~= body);
        assert forall|k: int| 0 <= k < body.len() implies is_digit(body[k]) by {
            assert(body[k] == s@[start + k]);
        }
    }
    Option::Some(acc as u32)
}

} // verus!
