//! Sizes and positions of the forecast panels, and the one-line error
//! summary of the footer.

use vstd::prelude::*;

use crate::text::{chars_of, first_line, push_char, string_of};

verus! {

/// What `unicode_width::UnicodeWidthChar::width` returns for `c`.
pub uninterp spec fn unicode_char_width(c: char) -> Option<usize>;

/// Calls `unicode_width::UnicodeWidthChar::width`: the number of terminal
/// columns of `c` after UAX #11 (ambiguous characters narrow), `None` for a
/// control character. The table lookup from U+00A0 on is only named (it
/// always gives a width there); the fixed ranges below U+00A0 are stated as
/// the crate's source shows them.
#[verifier::external_body]
fn char_width(c: char) -> (r: Option<usize>)
    ensures
        r == unicode_char_width(c),
        (c as u32) < 0x20 ==> r is None,
        0x20 <= (c as u32) < 0x7F ==> r == Some(1usize),
        0x7F <= (c as u32) < 0xA0 ==> r is None,
        0xA0 <= (c as u32) ==> r is Some,
{
    unicode_width::UnicodeWidthChar::width(c)
}

/// Columns taken by `c` (control characters take none).
pub open spec fn columns(c: char) -> nat {
    match unicode_char_width(c) {
        Some(w) => w as nat,
        None => 0,
    }
}

/// Columns taken by `s`, character by character.
pub open spec fn text_width(s: Seq<char>) -> nat
    decreases s.len(),
{
    if s.len() == 0 {
        0
    } else {
        columns(s[0]) + text_width(s.skip(1))
    }
}

/// How many leading characters of `s` fit into `budget` columns.
pub open spec fn fitting_prefix_len(s: Seq<char>, budget: int) -> nat
    decreases s.len(),
{
    if s.len() == 0 || columns(s[0]) > budget {
        0
    } else {
        1 + fitting_prefix_len(s.skip(1), budget - columns(s[0]))
    }
}

/// The footer text for an error: its first line, cut with an ellipsis when
/// it is wider than `max_width` columns.
pub open spec fn summary_text(msg: Seq<char>, max_width: nat) -> Seq<char> {
    let line = first_line(msg);
    if text_width(line) <= max_width {
        line
    } else {
        let budget: int = if max_width == 0 {
            0
        } else {
            max_width - 1
        };
        line.take(fitting_prefix_len(line, budget) as int).push('…')
    }
}

/// The characters of `v` up to its first line break.
fn first_line_chars(v: &Vec<char>) -> (r: Vec<char>)
    ensures
        r@ == first_line(v@),
{
    let mut out: Vec<char> = Vec::new();
    let mut i: usize = 0;
    assert(v@.skip(0) =~= v@);
    while i < v.len()
        invariant
            i <= v.len(),
            out@ + first_line(v@.skip(i as int)) == first_line(v@),
        decreases v.len() - i,
    {
        let ghost rest = v@.skip(i as int);
        if v[i] == '\n' {
            assert(first_line(rest) == Seq::<char>::empty());
            assert(out@ + Seq::<char>::empty() =~= out@);
            return out;
        }
        assert(rest.skip(1) =~= v@.skip(i + 1));
        let ghost before = out@;
        out.push(v[i]);
        assert(out@ + first_line(v@.skip(i + 1)) =~= before + (seq![v@[i as int]] + first_line(
            rest.skip(1),
        )));
        i = i + 1;
    }
    assert(first_line(v@.skip(i as int)) == Seq::<char>::empty());
    assert(out@ + Seq::<char>::empty() =~= out@);
    out
}

fn columns_of(c: char) -> (r: usize)
    ensures
        r as nat == columns(c),
{
    match char_width(c) {
        Some(w) => w,
        None => 0,
    }
}

/// Whether `v` fits into `max` columns.
fn fits_width(v: &Vec<char>, max: usize) -> (r: bool)
    ensures
        r == (text_width(v@) <= max),
{
    let mut used: usize = 0;
    let mut i: usize = 0;
    assert(v@.skip(0) =~= v@);
    while i < v.len()
        invariant
            i <= v.len(),
            used <= max,
            text_width(v@) == used + text_width(v@.skip(i as int)),
        decreases v.len() - i,
    {
        let w = columns_of(v[i]);
        assert(v@.skip(i as int).skip(1) =~= v@.skip(i + 1));
        if w > max - used {
            return false;
        }
        used = used + w;
        i = i + 1;
    }
    true
}

/// The number of leading characters of `v` that fit into `budget` columns.
fn fitting_len(v: &Vec<char>, budget: usize) -> (r: usize)
    ensures
        r as nat == fitting_prefix_len(v@, budget as int),
        r <= v.len(),
{
    let mut left: usize = budget;
    let mut i: usize = 0;
    assert(v@.skip(0) =~= v@);
    while i < v.len()
        invariant
            i <= v.len(),
            left <= budget,
            fitting_prefix_len(v@, budget as int) == i + fitting_prefix_len(
                v@.skip(i as int),
                left as int,
            ),
        decreases v.len() - i,
    {
        let w = columns_of(v[i]);
        assert(v@.skip(i as int).skip(1) =~= v@.skip(i + 1));
        if w > left {
            return i;
        }
        left = left - w;
        i = i + 1;
    }
    i
}

/// One-line summary of an error for the footer: the first line of `msg`,
/// cut to `max_width` columns with a trailing ellipsis.
pub fn summarize_error(msg: &str, max_width: usize) -> (r: String)
    ensures
        r@ == summary_text(msg@, max_width as nat),
{
    let all = chars_of(msg);
    let line = first_line_chars(&all);
    if fits_width(&line, max_width) {
        return string_of(&line);
    }
    let budget: usize = if max_width == 0 {
        0
    } else {
        max_width - 1
    };
    let n = fitting_len(&line, budget);
    let mut kept: Vec<char> = Vec::new();
    let mut i: usize = 0;
    while i < n
        invariant
            n <= line.len(),
            i <= n,
            kept@ == line@.take(i as int),
        decreases n - i,
    {
        kept.push(line[i]);
        i = i + 1;
        assert(kept@ =~= line@.take(i as int));
    }
    let mut out = string_of(&kept);
    push_char(&mut out, '…');
    out
}

/// Width of one column of the hourly list.
pub const HOURLY_COLUMN_WIDTH: u16 = 26;

/// Columns of the hourly list that fit side by side (at least one), and the
/// number of rows they hold together.
pub fn hourly_columns(inner_width: u16, inner_height: u16) -> (r: (usize, usize))
    ensures
        r.0 == (if inner_width / HOURLY_COLUMN_WIDTH >= 1 {
            inner_width / HOURLY_COLUMN_WIDTH
        } else {
            1
        }),
        r.1 == r.0 * inner_height,
{
    let per: u16 = inner_width / HOURLY_COLUMN_WIDTH;
    let ncols: usize = if per >= 1 {
        per as usize
    } else {
        1
    };
    assert(ncols <= 2521);
    assert(ncols * (inner_height as usize) <= 2521 * 65535) by (nonlinear_arith)
        requires
            ncols <= 2521,
            inner_height <= 65535,
    ;
    (ncols, ncols * inner_height as usize)
}

/// Left edge and width of column `col` of the hourly list inside a panel
/// whose inner area starts at `inner_x` and ends before `inner_right`;
/// width 0 means the column does not fit.
pub fn hourly_column_span(inner_x: u16, inner_right: u16, col: u16) -> (r: (u16, u16))
    requires
        inner_x + col * HOURLY_COLUMN_WIDTH <= u16::MAX,
    ensures
        r.0 == inner_x + col * HOURLY_COLUMN_WIDTH,
        r.1 == (if inner_right > r.0 {
            if inner_right - r.0 < HOURLY_COLUMN_WIDTH {
                inner_right - r.0
            } else {
                HOURLY_COLUMN_WIDTH as int
            }
        } else {
            0
        }),
{
    let x = inner_x + col * HOURLY_COLUMN_WIDTH;
    let room: u16 = if inner_right > x {
        inner_right - x
    } else {
        0
    };
    let w = if room < HOURLY_COLUMN_WIDTH {
        room
    } else {
        HOURLY_COLUMN_WIDTH
    };
    (x, w)
}

/// Length of each rule drawn on both sides of a date label `label_width`
/// columns wide in the hourly list (at least 2).
pub fn date_rule_len(label_width: usize) -> (r: usize)
    ensures
        r == ({
            let room: int = if label_width + 2 < HOURLY_COLUMN_WIDTH {
                HOURLY_COLUMN_WIDTH - (label_width + 2)
            } else {
                0
            };
            if room / 2 > 2 {
                room / 2
            } else {
                2
            }
        }),
{
    let room: usize = if label_width < HOURLY_COLUMN_WIDTH as usize - 2 {
        HOURLY_COLUMN_WIDTH as usize - (label_width + 2)
    } else {
        0
    };
    let half = room / 2;
    if half > 2 {
        half
    } else {
        2
    }
}

/// Index of the first hour whose hour-long slot has not ended at `now`
/// (timestamps in seconds), or 0 when every slot lies in the past.
pub fn first_current_hour(times: &Vec<i64>, now: i64) -> (r: usize)
    requires
        forall|i: int| 0 <= i < times.len() ==> times[i] <= i64::MAX - 3600,
    ensures
        (exists|i: int| 0 <= i < times.len() && times[i] + 3600 > now) ==> {
            &&& r < times.len()
            &&& times[r as int] + 3600 > now
            &&& forall|j: int| 0 <= j < r ==> times[j] + 3600 <= now
        },
        (forall|i: int| 0 <= i < times.len() ==> times[i] + 3600 <= now) ==> r == 0,
{
    let mut i: usize = 0;
    while i < times.len()
        invariant
            i <= times.len(),
            forall|j: int| 0 <= j < times.len() ==> times[j] <= i64::MAX - 3600,
            forall|j: int| 0 <= j < i ==> times[j] + 3600 <= now,
        decreases times.len() - i,
    {
        if times[i] + 3600 > now {
            return i;
        }
        i = i + 1;
    }
    0
}

/// Days shown in the weekly panel: two rows per day, at most seven.
pub fn weekly_day_count(inner_height: u16) -> (r: usize)
    ensures
        r == (if inner_height / 2 < 7 {
            inner_height / 2
        } else {
            7
        }),
{
    let half = (inner_height / 2) as usize;
    if half < 7 {
        half
    } else {
        7
    }
}

/// Width of the temperature range bar of the weekly panel: what is left
/// after 16 columns of labels, kept between 6 and 16.
pub fn weekly_bar_width(inner_width: u16) -> (r: usize)
    ensures
        r == ({
            let left: int = if inner_width > 16 {
                inner_width - 16
            } else {
                0
            };
            if left < 6 {
                6
            } else if left > 16 {
                16
            } else {
                left
            }
        }),
{
    let left: usize = if inner_width > 16 {
        (inner_width - 16) as usize
    } else {
        0
    };
    if left < 6 {
        6
    } else if left > 16 {
        16
    } else {
        left
    }
}

} // verus!
