//! Which texts are handed to the calendar library as epochs.

use vstd::prelude::*;
use vstd::string::StrSliceExecFns;

verus! {

/// The longest epoch text that is read, in characters. A number written with
/// so few digits and no exponent is finite as a 64-bit floating-point number.
pub const MAX_EPOCH_TEXT_LEN: usize = 256;

/// The longest run of digits that a calendar date may hold: nine, as many as
/// nanoseconds have, which also keeps every field within 32 bits.
pub const MAX_CALENDAR_DIGITS: usize = 9;

/// ASCII white space: the space, and the characters from tab to carriage return.
pub open spec fn is_space(c: char) -> bool {
    c == ' ' || ('\t' <= c && c <= '\r')
}

pub open spec fn is_digit(c: char) -> bool {
    '0' <= c && c <= '9'
}

/// What a number written without an exponent is made of, and the white space
/// that may stand around it.
pub open spec fn is_plain_number_char(c: char) -> bool {
    is_digit(c) || c == '.' || c == '+' || c == '-' || is_space(c)
}

/// Every character is in the ASCII range.
pub open spec fn is_ascii_text(t: Seq<char>) -> bool {
    forall|i: int| 0 <= i < t.len() ==> #[trigger] t[i] <= '\u{7f}'
}

/// `lo..hi` is `t` without the white space at its two ends; for a text of
/// white space alone both bounds are its length.
pub open spec fn is_trim_of(t: Seq<char>, lo: int, hi: int) -> bool {
    &&& 0 <= lo <= hi <= t.len()
    &&& forall|i: int| 0 <= i < lo ==> is_space(#[trigger] t[i])
    &&& forall|i: int| hi <= i < t.len() ==> is_space(#[trigger] t[i])
    &&& lo < hi ==> !is_space(t[lo]) && !is_space(t[hi - 1])
    &&& lo == hi ==> lo == t.len()
}

/// `t` without the white space at its two ends.
pub open spec fn trimmed(t: Seq<char>) -> Seq<char> {
    let bounds = choose|bounds: (int, int)| is_trim_of(t, bounds.0, bounds.1);
    t.subrange(bounds.0, bounds.1)
}

/// A text has one trimmed form only.
pub proof fn lemma_trim_unique(t: Seq<char>, lo: int, hi: int)
    requires
        is_trim_of(t, lo, hi),
    ensures
        trimmed(t) == t.subrange(lo, hi),
{
    let found = choose|bounds: (int, int)| is_trim_of(t, bounds.0, bounds.1);
    assert(is_trim_of(t, (lo, hi).0, (lo, hi).1));
    assert(is_trim_of(t, found.0, found.1));
    if found.0 < lo {
        assert(is_space(t[found.0]));
    }
    if lo < found.0 {
        assert(is_space(t[lo]));
    }
    if found.1 < hi {
        assert(is_space(t[hi - 1]));
    }
    if hi < found.1 {
        assert(is_space(t[found.1 - 1]));
    }
}

/// How many characters the format mark at the start of `s` takes: `JD`, `MJD`
/// or `SEC` announce a number; 0 where `s` starts with none of them.
pub open spec fn format_mark_len(s: Seq<char>) -> int {
    if s.len() >= 2 && s[0] == 'J' && s[1] == 'D' {
        2
    } else if s.len() >= 3 && s[0] == 'M' && s[1] == 'J' && s[2] == 'D' {
        3
    } else if s.len() >= 3 && s[0] == 'S' && s[1] == 'E' && s[2] == 'C' {
        3
    } else {
        0
    }
}

/// Between the format mark and the last three characters, which name the time
/// scale, the text holds a plain number and white space only.
pub open spec fn is_plain_number_text(s: Seq<char>) -> bool {
    forall|i: int|
        format_mark_len(s) <= i < s.len() - 3 ==> is_plain_number_char(#[trigger] s[i])
}

/// The `n` characters of `s` from position `i` on are digits.
pub open spec fn digit_run_at(s: Seq<char>, i: int, n: int) -> bool {
    0 <= i && i + n <= s.len() && forall|k: int| i <= k < i + n ==> is_digit(#[trigger] s[k])
}

/// A run of more than [`MAX_CALENDAR_DIGITS`] digits starts at position `i`.
pub open spec fn long_run_at(s: Seq<char>, i: int) -> bool {
    digit_run_at(s, i, MAX_CALENDAR_DIGITS + 1)
}

/// No field of the date has more than [`MAX_CALENDAR_DIGITS`] digits.
pub open spec fn is_short_field_text(s: Seq<char>) -> bool {
    forall|i: int| !long_run_at(s, i)
}

/// The epoch texts that are handed to the calendar library; every other text
/// is refused without asking it.
///
/// The text is ASCII, of at most [`MAX_EPOCH_TEXT_LEN`] characters and, once
/// trimmed, either announces a number by `JD`, `MJD` or `SEC` and writes it
/// without letters, or is taken as a calendar date, whose runs of digits are
/// then at most [`MAX_CALENDAR_DIGITS`] long.
pub open spec fn admissible_epoch_text(t: Seq<char>) -> bool {
    &&& is_ascii_text(t)
    &&& t.len() <= MAX_EPOCH_TEXT_LEN
    &&& if format_mark_len(trimmed(t)) > 0 {
        is_plain_number_text(trimmed(t))
    } else {
        is_short_field_text(trimmed(t))
    }
}

fn char_is_space(c: char) -> (r: bool)
    ensures
        r == is_space(c),
{
    c == ' ' || ('\t' <= c && c <= '\r')
}

fn char_is_digit(c: char) -> (r: bool)
    ensures
        r == is_digit(c),
{
    '0' <= c && c <= '9'
}

/// The characters of `text`, in order.
fn chars_of(text: &str) -> (r: Vec<char>)
    ensures
        r@ == text@,
{
    let mut out: Vec<char> = Vec::new();
    for c in it: text.chars()
        invariant
            it.seq() == text@,
            out@ == text@.take(it.index() as int),
    {
        out.push(c);
    }
    out
}

fn all_ascii(chars: &Vec<char>) -> (r: bool)
    ensures
        r == is_ascii_text(chars@),
{
    let mut i: usize = 0;
    while i < chars.len()
        invariant
            i <= chars.len(),
            forall|k: int| 0 <= k < i ==> #[trigger] chars@[k] <= '\u{7f}',
        decreases chars.len() - i,
    {
        if chars[i] > '\u{7f}' {
            return false;
        }
        i += 1;
    }
    true
}

/// Where the text starts and ends once the white space at its ends is left out.
fn trim_bounds(chars: &Vec<char>) -> (r: (usize, usize))
    ensures
        is_trim_of(chars@, r.0 as int, r.1 as int),
{
    let mut lo: usize = 0;
    while lo < chars.len() && char_is_space(chars[lo])
        invariant
            lo <= chars.len(),
            forall|i: int| 0 <= i < lo ==> is_space(#[trigger] chars@[i]),
        decreases chars.len() - lo,
    {
        lo += 1;
    }
    if lo == chars.len() {
        return (lo, lo);
    }
    let mut hi: usize = chars.len();
    while hi > lo + 1 && char_is_space(chars[hi - 1])
        invariant
            lo < hi <= chars.len(),
            !is_space(chars@[lo as int]),
            forall|i: int| hi <= i < chars.len() ==> is_space(#[trigger] chars@[i]),
        decreases hi,
    {
        hi -= 1;
    }
    (lo, hi)
}

fn mark_len(chars: &Vec<char>, lo: usize, hi: usize) -> (r: usize)
    requires
        lo <= hi <= chars.len(),
    ensures
        r == format_mark_len(chars@.subrange(lo as int, hi as int)),
{
    let n = hi - lo;
    if n >= 2 && chars[lo] == 'J' && chars[lo + 1] == 'D' {
        2
    } else if n >= 3 && chars[lo] == 'M' && chars[lo + 1] == 'J' && chars[lo + 2] == 'D' {
        3
    } else if n >= 3 && chars[lo] == 'S' && chars[lo + 1] == 'E' && chars[lo + 2] == 'C' {
        3
    } else {
        0
    }
}

fn plain_number_text(chars: &Vec<char>, lo: usize, hi: usize, mark: usize) -> (r: bool)
    requires
        lo <= hi <= chars.len(),
        mark == format_mark_len(chars@.subrange(lo as int, hi as int)),
    ensures
        r == is_plain_number_text(chars@.subrange(lo as int, hi as int)),
{
    let ghost s = chars@.subrange(lo as int, hi as int);
    if hi - lo < 3 {
        return true;
    }
    let end = hi - 3;
    let mut i: usize = lo + mark;
    while i < end
        invariant
            lo <= hi <= chars.len(),
            end == hi - 3,
            lo + mark <= i,
            s == chars@.subrange(lo as int, hi as int),
            mark == format_mark_len(s),
            forall|k: int| mark <= k < i - lo && k < s.len() - 3 ==> is_plain_number_char(#[trigger] s[k]),
        decreases end - i,
    {
        let c = chars[i];
        assert(c == s[i - lo]);
        if !(char_is_digit(c) || c == '.' || c == '+' || c == '-' || char_is_space(c)) {
            return false;
        }
        i += 1;
    }
    true
}

fn short_field_text(chars: &Vec<char>, lo: usize, hi: usize) -> (r: bool)
    requires
        lo <= hi <= chars.len(),
    ensures
        r == is_short_field_text(chars@.subrange(lo as int, hi as int)),
{
    let ghost s = chars@.subrange(lo as int, hi as int);
    let mut run: usize = 0;
    let mut i: usize = lo;
    while i < hi
        invariant
            lo <= i <= hi <= chars.len(),
            s == chars@.subrange(lo as int, hi as int),
            run <= MAX_CALENDAR_DIGITS,
            run <= i - lo,
            digit_run_at(s, i - lo - run, run as int),
            i - lo - run > 0 ==> !is_digit(s[i - lo - run - 1]),
            forall|j: int| j + MAX_CALENDAR_DIGITS + 1 <= i - lo ==> !long_run_at(s, j),
        decreases hi - i,
    {
        let c = chars[i];
        assert(c == s[i - lo]);
        if char_is_digit(c) {
            run += 1;
            if run > MAX_CALENDAR_DIGITS {
                assert(long_run_at(s, i - lo + 1 - run));
                return false;
            }
            assert forall|j: int| j + MAX_CALENDAR_DIGITS + 1 <= i + 1 - lo implies !long_run_at(
                s,
                j,
            ) by {
                if j + MAX_CALENDAR_DIGITS + 1 == i + 1 - lo && j >= 0 {
                    let before = i + 1 - lo - run - 1;
                    assert(j <= before < j + MAX_CALENDAR_DIGITS + 1);
                    assert(!is_digit(s[before]));
                }
            }
        } else {
            run = 0;
            assert forall|j: int| j + MAX_CALENDAR_DIGITS + 1 <= i + 1 - lo implies !long_run_at(
                s,
                j,
            ) by {
                if j + MAX_CALENDAR_DIGITS + 1 == i + 1 - lo && j >= 0 {
                    assert(!is_digit(s[i - lo]));
                }
            }
        }
        i += 1;
    }
    true
}

/// Whether `text` is one of the epoch texts that are handed on.
pub fn is_admissible_epoch_text(text: &str) -> (r: bool)
    ensures
        r == admissible_epoch_text(text@),
{
    if text.unicode_len() > MAX_EPOCH_TEXT_LEN {
        return false;
    }
    let chars = chars_of(text);
    if !all_ascii(&chars) {
        return false;
    }
    let (lo, hi) = trim_bounds(&chars);
    proof {
        lemma_trim_unique(chars@, lo as int, hi as int);
    }
    let mark = mark_len(&chars, lo, hi);
    if mark > 0 {
        plain_number_text(&chars, lo, hi, mark)
    } else {
        short_field_text(&chars, lo, hi)
    }
}

} // verus!
