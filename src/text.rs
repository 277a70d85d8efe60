//! Pieces of text for the views: ordinal suffixes, numbers, names, labels, line counts.
use vstd::prelude::*;
use vstd::string::*;
use crate::date::{Date, year_of, month_of, day_of, weekday_of};

verus! {

/// The English ordinal suffix of a day of the month.
pub open spec fn suffix_of(n: int) -> Seq<char> {
    if n % 10 == 1 && (n % 100) / 10 != 1 {
        "st"@
    } else if n % 10 == 2 && (n % 100) / 10 != 1 {
        "nd"@
    } else if n % 10 == 3 && (n % 100) / 10 != 1 {
        "rd"@
    } else {
        "th"@
    }
}

/// The ordinal suffix of `n`: "st", "nd" or "rd" after a last digit 1, 2 or 3
/// that is not part of 11, 12 or 13; "th" otherwise.
pub fn day_suffix(n: u32) -> (r: &'static str)
    ensures
        r@ == suffix_of(n as int),
{
    let last = n % 10;
    let tens = (n % 100) / 10;
    if last == 1 && tens != 1 {
        "st"
    } else if last == 2 && tens != 1 {
        "nd"
    } else if last == 3 && tens != 1 {
        "rd"
    } else {
        "th"
    }
}

/// The decimal digit character of `d` (0 to 9).
pub open spec fn digit_of(d: int) -> char {
    if d == 0 { '0' } else if d == 1 { '1' } else if d == 2 { '2' } else if d == 3 { '3' }
    else if d == 4 { '4' } else if d == 5 { '5' } else if d == 6 { '6' } else if d == 7 { '7' }
    else if d == 8 { '8' } else { '9' }
}

/// The decimal writing of a natural number, without leading zeros.
pub open spec fn decimal(n: nat) -> Seq<char>
    decreases n,
{
    if n < 10 {
        seq![digit_of(n as int)]
    } else {
        decimal(n / 10).push(digit_of((n % 10) as int))
    }
}

/// The decimal writing of an integer, with a leading '-' where it is negative.
pub open spec fn signed_decimal(n: int) -> Seq<char> {
    if n < 0 {
        seq!['-'] + decimal((-n) as nat)
    } else {
        decimal(n as nat)
    }
}

fn digit_str(d: u32) -> (r: &'static str)
    requires
        d < 10,
    ensures
        r@ == seq![digit_of(d as int)],
{
    proof {
        reveal_strlit("0");
        reveal_strlit("1");
        reveal_strlit("2");
        reveal_strlit("3");
        reveal_strlit("4");
        reveal_strlit("5");
        reveal_strlit("6");
        reveal_strlit("7");
        reveal_strlit("8");
        reveal_strlit("9");
    }
    if d == 0 { "0" } else if d == 1 { "1" } else if d == 2 { "2" } else if d == 3 { "3" }
    else if d == 4 { "4" } else if d == 5 { "5" } else if d == 6 { "6" } else if d == 7 { "7" }
    else if d == 8 { "8" } else { "9" }
}

/// Appends the decimal writing of `n` to `s`.
pub fn push_decimal(s: &mut String, n: u32)
    ensures
        final(s)@ == old(s)@ + decimal(n as nat),
    decreases n,
{
    if n >= 10 {
        push_decimal(s, n / 10);
    }
    let d = digit_str(n % 10);
    s.append(d);
    proof {
        if n >= 10 {
            assert(old(s)@ + decimal(n as nat) =~= old(s)@ + decimal((n / 10) as nat) + seq![
                digit_of((n % 10) as int),
            ]);
        } else {
            assert(old(s)@ + decimal(n as nat) =~= old(s)@ + seq![digit_of(n as int)]);
        }
    }
}

/// Appends the decimal writing of `n` to `s`, with a '-' first where it is negative.
pub fn push_signed_decimal(s: &mut String, n: i32)
    ensures
        final(s)@ == old(s)@ + signed_decimal(n as int),
{
    if n < 0 {
        proof {
            reveal_strlit("-");
        }
        s.append("-");
        let m: u32 = if n == i32::MIN { 2147483648u32 } else { (-n) as u32 };
        push_decimal(s, m);
        assert(old(s)@ + signed_decimal(n as int) =~= old(s)@ + seq!['-'] + decimal(m as nat));
    } else {
        push_decimal(s, n as u32);
    }
}

/// Three-letter English name of a month (1 to 12).
pub open spec fn month_name_of(m: int) -> Seq<char> {
    if m == 1 { "Jan"@ } else if m == 2 { "Feb"@ } else if m == 3 { "Mar"@ }
    else if m == 4 { "Apr"@ } else if m == 5 { "May"@ } else if m == 6 { "Jun"@ }
    else if m == 7 { "Jul"@ } else if m == 8 { "Aug"@ } else if m == 9 { "Sep"@ }
    else if m == 10 { "Oct"@ } else if m == 11 { "Nov"@ } else { "Dec"@ }
}

/// Three-letter English name of a weekday (Monday = 0).
pub open spec fn day_name_of(w: int) -> Seq<char> {
    if w == 0 { "Mon"@ } else if w == 1 { "Tue"@ } else if w == 2 { "Wed"@ }
    else if w == 3 { "Thu"@ } else if w == 4 { "Fri"@ } else if w == 5 { "Sat"@ }
    else { "Sun"@ }
}

/// The three-letter name of month `m` (1 to 12).
pub fn month_name(m: u32) -> (r: &'static str)
    requires
        1 <= m <= 12,
    ensures
        r@ == month_name_of(m as int),
{
    if m == 1 { "Jan" } else if m == 2 { "Feb" } else if m == 3 { "Mar" }
    else if m == 4 { "Apr" } else if m == 5 { "May" } else if m == 6 { "Jun" }
    else if m == 7 { "Jul" } else if m == 8 { "Aug" } else if m == 9 { "Sep" }
    else if m == 10 { "Oct" } else if m == 11 { "Nov" } else { "Dec" }
}

/// The three-letter name of weekday `w` (Monday = 0).
pub fn day_name(w: u32) -> (r: &'static str)
    requires
        w < 7,
    ensures
        r@ == day_name_of(w as int),
{
    if w == 0 { "Mon" } else if w == 1 { "Tue" } else if w == 2 { "Wed" }
    else if w == 3 { "Thu" } else if w == 4 { "Fri" } else if w == 5 { "Sat" }
    else { "Sun" }
}

/// "HAM" before noon and "HPM" from noon on, with the hour of the day as it is.
pub open spec fn hour_label_of(h: int) -> Seq<char> {
    decimal(h as nat) + if h < 12 { "AM"@ } else { "PM"@ }
}

/// The label of an hour row, such as "9AM" or "14PM".
pub fn hour_label(hour: u8) -> (r: String)
    ensures
        r@ == hour_label_of(hour as int),
{
    let mut s = String::new();
    push_decimal(&mut s, hour as u32);
    if hour < 12 {
        s.append("AM");
    } else {
        s.append("PM");
    }
    s
}

/// "Mar 2024": the month's name and the year.
pub open spec fn month_title_of(d: int) -> Seq<char> {
    month_name_of(month_of(d)) + " "@ + signed_decimal(year_of(d))
}

/// The title of a month grid: the selected date's month name and year.
pub fn month_title(d: &Date) -> (r: String)
    requires
        d.wf(),
    ensures
        r@ == month_title_of(d@),
{
    let mut s = String::new();
    s.append(month_name(d.month()));
    s.append(" ");
    push_signed_decimal(&mut s, d.year());
    assert(s@ =~= month_title_of(d@));
    s
}

/// "Fri 15th Mar 2024": weekday, day with its suffix, month and year.
pub open spec fn day_caption_of(d: int) -> Seq<char> {
    day_name_of(weekday_of(d)) + " "@ + decimal(day_of(d) as nat) + suffix_of(day_of(d)) + " "@
        + month_name_of(month_of(d)) + " "@ + signed_decimal(year_of(d))
}

/// The caption of a day column in the week grid.
pub fn day_caption(d: &Date) -> (r: String)
    requires
        d.wf(),
    ensures
        r@ == day_caption_of(d@),
{
    let day = d.day();
    let mut s = String::new();
    s.append(day_name(d.weekday()));
    s.append(" ");
    push_decimal(&mut s, day);
    s.append(day_suffix(day));
    s.append(" ");
    s.append(month_name(d.month()));
    s.append(" ");
    push_signed_decimal(&mut s, d.year());
    assert(s@ =~= day_caption_of(d@));
    s
}

/// "15" for a day of the shown month; "15 Apr" for a day of a neighbouring one.
pub open spec fn day_label_of(d: int, in_month: bool) -> Seq<char> {
    if in_month {
        decimal(day_of(d) as nat)
    } else {
        decimal(day_of(d) as nat) + " "@ + month_name_of(month_of(d))
    }
}

/// The label of a cell of the month grid.
pub fn day_label(d: &Date, in_month: bool) -> (r: String)
    requires
        d.wf(),
    ensures
        r@ == day_label_of(d@, in_month),
{
    let mut s = String::new();
    push_decimal(&mut s, d.day());
    if !in_month {
        s.append(" ");
        s.append(month_name(d.month()));
    }
    assert(s@ =~= day_label_of(d@, in_month));
    s
}

/// The number of newline characters in `s`.
pub open spec fn newlines(s: Seq<char>) -> nat
    decreases s.len(),
{
    if s.len() == 0 {
        0
    } else {
        newlines(s.drop_last()) + if s.last() == '\n' { 1nat } else { 0nat }
    }
}

proof fn lemma_newlines_bound(s: Seq<char>)
    ensures
        newlines(s) <= s.len(),
    decreases s.len(),
{
    if s.len() > 0 {
        lemma_newlines_bound(s.drop_last());
    }
}

/// The number of lines of a text: one per newline, and one more for text after
/// the last newline.
pub open spec fn line_count_of(s: Seq<char>) -> nat {
    newlines(s) + if s.len() > 0 && s.last() != '\n' { 1nat } else { 0nat }
}

/// The number of lines of a text.
pub fn line_count(s: &str) -> (r: usize)
    ensures
        r as nat == line_count_of(s@),
{
    let n = s.unicode_len();
    let mut count: usize = 0;
    let mut i: usize = 0;
    while i < n
        invariant
            n as nat == s@.len(),
            i <= n,
            count as nat == newlines(s@.subrange(0, i as int)),
            count <= i,
        decreases n - i,
    {
        let c = s.get_char(i);
        assert(s@.subrange(0, i as int + 1).drop_last() =~= s@.subrange(0, i as int));
        if c == '\n' {
            count = count + 1;
        }
        i = i + 1;
    }
    assert(s@.subrange(0, n as int) =~= s@);
    if n > 0 && s.get_char(n - 1) != '\n' {
        proof {
            lemma_newlines_bound(s@.drop_last());
        }
        count + 1
    } else {
        count
    }
}

/// Where the first newline at or after `i` stands, or the text's length where
/// there is none.
pub open spec fn newline_from(s: Seq<char>, i: int) -> int
    decreases s.len() - i,
{
    if i >= s.len() {
        s.len() as int
    } else if s[i] == '\n' {
        i
    } else {
        newline_from(s, i + 1)
    }
}

/// The line from `i` up to the newline (or end of text) at `j`; a carriage
/// return just before a newline belongs to the line ending, not to the line.
pub open spec fn line_between(s: Seq<char>, i: int, j: int) -> Seq<char> {
    let raw = s.subrange(i, j);
    if j < s.len() && raw.len() > 0 && raw.last() == '\r' {
        raw.drop_last()
    } else {
        raw
    }
}

/// The lines of a text from position `i` on.
pub open spec fn lines_from(s: Seq<char>, i: int) -> Seq<Seq<char>>
    decreases s.len() - i,
{
    if i < 0 || i >= s.len() {
        Seq::empty()
    } else {
        let j = newline_from(s, i);
        if j < i || j > s.len() {
            Seq::empty()
        } else if j == s.len() {
            seq![line_between(s, i, j)]
        } else {
            seq![line_between(s, i, j)] + lines_from(s, j + 1)
        }
    }
}

/// The lines of a text: split at each newline, with no empty line after a
/// final newline.
pub open spec fn text_lines(s: Seq<char>) -> Seq<Seq<char>> {
    lines_from(s, 0)
}

/// A line cut to its first `w` characters.
pub open spec fn cut(l: Seq<char>, w: int) -> Seq<char> {
    if l.len() <= w {
        l
    } else {
        l.subrange(0, w)
    }
}

/// The first `max` lines of a text (all of them where it has fewer), each
/// cut to `w` characters.
pub open spec fn shown_lines_of(s: Seq<char>, max: int, w: int) -> Seq<Seq<char>> {
    let ls = text_lines(s);
    let n = if ls.len() < max { ls.len() as int } else { max };
    Seq::new(n as nat, |k: int| cut(ls[k], w))
}

/// The lines of `text` that a box `max_lines` high and `width` wide shows:
/// the first `max_lines` lines, each cut to `width` characters; the rest are
/// dropped.
pub fn shown_lines(text: &str, max_lines: usize, width: usize) -> (r: Vec<String>)
    ensures
        r@.map_values(|l: String| l@) == shown_lines_of(text@, max_lines as int, width as int),
{
    let n = text.unicode_len();
    let mut r: Vec<String> = Vec::new();
    let mut i: usize = 0;
    let ghost mut done: Seq<Seq<char>> = Seq::empty();
    assert(done + lines_from(text@, 0) =~= text_lines(text@));
    while i < n && r.len() < max_lines
        invariant
            n as int == text@.len(),
            i <= n,
            text_lines(text@) == done + lines_from(text@, i as int),
            r@.len() == done.len(),
            r@.len() <= max_lines,
            forall|k: int| 0 <= k < r@.len() ==> (#[trigger] r@[k])@ == cut(done[k], width as int),
        decreases n - i,
    {
        let mut j: usize = i;
        while j < n && text.get_char(j) != '\n'
            invariant
                i <= j <= n,
                n as int == text@.len(),
                newline_from(text@, j as int) == newline_from(text@, i as int),
            decreases n - j,
        {
            j = j + 1;
        }
        let mut end: usize = j;
        if j < n && j > i && text.get_char(j - 1) == '\r' {
            end = j - 1;
        }
        let stop: usize = if end - i <= width {
            end
        } else {
            i + width
        };
        let line = text.substring_char(i, stop);
        r.push(String::from_str(line));
        proof {
            let lb = line_between(text@, i as int, j as int);
            assert(lb =~= text@.subrange(i as int, end as int));
            assert(cut(lb, width as int) =~= text@.subrange(i as int, stop as int));
            let next = if j < n { j + 1 } else { n as int };
            assert(lines_from(text@, i as int) =~= seq![lb] + lines_from(text@, next));
            assert(done.push(lb) + lines_from(text@, next) =~= done + lines_from(text@, i as int));
            done = done.push(lb);
        }
        i = if j < n {
            j + 1
        } else {
            n
        };
    }
    proof {
        let ls = text_lines(text@);
        if i >= n {
            assert(ls =~= done);
        }
        assert(r@.map_values(|l: String| l@) =~= shown_lines_of(
            text@,
            max_lines as int,
            width as int,
        ));
    }
    r
}

} // verus!
