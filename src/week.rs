//! The week grid: a selected (date, hour), a scroll anchor, and the layout pass
//! that moves the anchor until the selection sits clear of the grid's edges.
use vstd::prelude::*;
use crate::date::{Date, weekday_of, NAV_LIMIT};
use crate::notes::{NoteStore, NoteKey};
use crate::text::{line_count_of, line_count};
use crate::style::{Color, Style, label_style, frame_style, text_style, label_fg, cell_bg};

verus! {

/// Largest distance, in days, of the week grid's scroll anchor from day 0.
pub const TOP_LIMIT: i32 = 80_100_000;

/// Number of layout passes after which the week grid takes the last one as it is.
pub const MAX_PASSES: u32 = 30;

/// The hour selected when the week grid takes a date from the month grid.
pub const SYNC_HOUR: u8 = 11;

/// The least height of an hour row.
pub const MIN_ROW_HEIGHT: usize = 3;

/// `w` brought into 1..=5.
pub open spec fn clamp_offset(w: int) -> int {
    if w < 1 {
        1
    } else if w > 5 {
        5
    } else {
        w
    }
}

/// How many days the anchor stands before a selection at `date`, `hour`: the
/// weekday of the selected day (of the day before, at hour 0), brought into 1..=5.
pub open spec fn anchor_offset(date: int, hour: int) -> int {
    clamp_offset(weekday_of(if hour == 0 { date - 1 } else { date }))
}

/// The hour before `h`, with 23 before 0.
pub open spec fn hour_before(h: int) -> int {
    (h + 23) % 24
}

/// What a week grid holds: the selection, the anchor (the top-left date and the
/// top hour), and the note edit that it asks for, if any.
pub struct WeekState {
    pub date: int,
    pub hour: int,
    pub top: int,
    pub top_hour: int,
    pub request: Option<NoteKey>,
}

/// The week grid's cursor and scroll anchor.
pub struct WeekView {
    selected_date: Date,
    selected_hour: u8,
    top_left_date: Date,
    top_hour: u8,
    request: Option<NoteKey>,
}

impl View for WeekView {
    type V = WeekState;

    closed spec fn view(&self) -> WeekState {
        WeekState {
            date: self.selected_date@,
            hour: self.selected_hour as int,
            top: self.top_left_date@,
            top_hour: self.top_hour as int,
            request: self.request,
        }
    }
}

/// What one walk down the grid looks at: the selection, the current day and
/// hour, and the viewport's height.
pub struct WalkCtx {
    pub sel: int,
    pub sel_hour: int,
    pub today: int,
    pub now: int,
    pub height: int,
}

/// One hour row of the grid. `y` is its first line, where a date header goes
/// when `show_date` holds; `left` is the date of its first column; `marked`
/// says that the selection is shown in this row.
pub struct RowSpec {
    pub show_date: bool,
    pub y: int,
    pub hour: int,
    pub height: int,
    pub left: int,
    pub marked: bool,
}

/// A move of the scroll anchor that a walk asks for.
#[derive(Clone, Copy, Debug, PartialEq, Eq, Structural)]
pub enum Shift {
    Left,
    Right,
    Up,
    Down,
}

/// The rows a walk laid out, and the move it asks for, if any.
pub struct Walk {
    pub rows: Seq<RowSpec>,
    pub shift: Option<Shift>,
}

/// The outcome of the bounded relaxation: the final anchor, the rows of the
/// last walk, and whether that walk asked for no move.
pub struct Relaxed {
    pub top: int,
    pub top_hour: int,
    pub rows: Seq<RowSpec>,
    pub converged: bool,
}

/// The larger of 3 and the line counts of the notes in the first `k` columns
/// of the row at `left`, `hour`.
pub open spec fn max_lines(notes: NoteStore, left: int, hour: int, k: int) -> int
    decreases k,
{
    if k <= 0 {
        MIN_ROW_HEIGHT as int
    } else {
        let p = max_lines(notes, left, hour, k - 1);
        let l = line_count_of(notes.hour_note(left + k - 1, hour)) as int;
        if l > p {
            l
        } else {
            p
        }
    }
}

/// The walk from line `y`, at the row of `left`, `hour`; `found` says that an
/// earlier row showed the selection already.
pub open spec fn walk_from(notes: NoteStore, c: WalkCtx, y: int, left: int, hour: int, found: bool) -> Walk
    decreases (c.height + 2 - y) * 25 + (if hour == 0 { 0int } else { 24 - hour }),
{
    if y < 0 || y > c.height || hour < 0 || hour >= 24 {
        Walk { rows: Seq::empty(), shift: None }
    } else {
        let show = hour == 0 || y == 0;
        let y1 = if show { y + 1 } else { y };
        let off = c.sel - left;
        let in_row = !found && hour == c.sel_hour && 0 <= off <= 6;
        let raw = max_lines(notes, left, hour, 7);
        if y1 > c.height {
            Walk { rows: Seq::empty(), shift: None }
        } else if in_row && off == 0 {
            Walk { rows: Seq::empty(), shift: Some(Shift::Left) }
        } else if in_row && off == 6 {
            Walk { rows: Seq::empty(), shift: Some(Shift::Right) }
        } else if in_row && y1 <= 1 {
            Walk { rows: Seq::empty(), shift: Some(Shift::Up) }
        } else if in_row && y1 + raw >= c.height - 2 {
            Walk { rows: Seq::empty(), shift: Some(Shift::Down) }
        } else {
            let bh = if raw < c.height - y1 { raw } else { c.height - y1 };
            let row = RowSpec { show_date: show, y, hour, height: bh, left, marked: in_row };
            let rest = if hour == 23 {
                walk_from(notes, c, y1 + bh, left + 1, 0, found || in_row)
            } else {
                walk_from(notes, c, y1 + bh, left, hour + 1, found || in_row)
            };
            Walk { rows: seq![row] + rest.rows, shift: rest.shift }
        }
    }
}

/// The anchor after a move.
pub open spec fn shifted(top: int, top_hour: int, s: Shift) -> (int, int) {
    match s {
        Shift::Left => (top - 1, top_hour),
        Shift::Right => (top + 1, top_hour),
        Shift::Up => if top_hour == 0 {
            (top - 1, 23)
        } else {
            (top, top_hour - 1)
        },
        Shift::Down => if top_hour == 23 {
            (top + 1, 0)
        } else {
            (top, top_hour + 1)
        },
    }
}

/// Up to `passes` walks from the anchor `top`, `top_hour`, each after the move
/// that the one before asked for; the move asked for by the last one is not made.
pub open spec fn relax(notes: NoteStore, c: WalkCtx, top: int, top_hour: int, passes: nat) -> Relaxed
    decreases passes,
{
    let w = walk_from(notes, c, 0, top, top_hour, false);
    if w.shift.is_none() {
        Relaxed { top, top_hour, rows: w.rows, converged: true }
    } else if passes <= 1 {
        Relaxed { top, top_hour, rows: w.rows, converged: false }
    } else {
        let (t, h) = shifted(top, top_hour, w.shift->0);
        relax(notes, c, t, h, (passes - 1) as nat)
    }
}

/// The state one hour earlier; hour 0 goes to hour 23 of the day before.
pub open spec fn hour_up(s: WeekState) -> WeekState {
    if s.hour == 0 {
        WeekState { date: s.date - 1, hour: 23, ..s }
    } else {
        WeekState { hour: s.hour - 1, ..s }
    }
}

/// The state one hour later; hour 23 goes to hour 0 of the day after.
pub open spec fn hour_down(s: WeekState) -> WeekState {
    if s.hour == 23 {
        WeekState { date: s.date + 1, hour: 0, ..s }
    } else {
        WeekState { hour: s.hour + 1, ..s }
    }
}

/// The state with the selection `n` days later, at the same hour.
pub open spec fn day_moved(s: WeekState, n: int) -> WeekState {
    WeekState { date: s.date + n, ..s }
}

/// The state after an edit of the selected hour's note is asked for.
pub open spec fn entered(s: WeekState) -> WeekState {
    WeekState { request: Some(NoteKey::Hour(Date { days: s.date as i32 }, s.hour as u8)), ..s }
}

/// What a walk looks at, for a week grid in state `s`.
pub open spec fn ctx_of(s: WeekState, height: int, today: int, now: int) -> WalkCtx {
    WalkCtx { sel: s.date, sel_hour: s.hour, today, now, height }
}

/// The first line of a row's cells: the line after its date header, if it has one.
pub open spec fn cells_top(r: RowSpec) -> int {
    if r.show_date {
        r.y + 1
    } else {
        r.y
    }
}

/// The row showing the selection lies clear of the grid's edges: not in the
/// first or last column, its cells start below line 1, and at least three
/// lines stay below them.
pub open spec fn clear_of_edges(r: RowSpec, c: WalkCtx) -> bool {
    &&& 1 <= c.sel - r.left <= 5
    &&& cells_top(r) > 1
    &&& cells_top(r) + r.height + 2 < c.height
}

proof fn lemma_walk_clear(notes: NoteStore, c: WalkCtx, y: int, left: int, hour: int, found: bool)
    requires
        walk_from(notes, c, y, left, hour, found).shift.is_none(),
    ensures
        ({
            let rows = walk_from(notes, c, y, left, hour, found).rows;
            forall|j: int| 0 <= j < rows.len() && (#[trigger] rows[j]).marked ==> clear_of_edges(rows[j], c)
        }),
    decreases (c.height + 2 - y) * 25 + (if hour == 0 { 0int } else { 24 - hour }),
{
    if !(y < 0 || y > c.height || hour < 0 || hour >= 24) {
        let show = hour == 0 || y == 0;
        let y1 = if show { y + 1 } else { y };
        let off = c.sel - left;
        let in_row = !found && hour == c.sel_hour && 0 <= off <= 6;
        let raw = max_lines(notes, left, hour, 7);
        if y1 <= c.height && !(in_row && (off == 0 || off == 6 || y1 <= 1 || y1 + raw >= c.height - 2)) {
            let bh = if raw < c.height - y1 { raw } else { c.height - y1 };
            let w = walk_from(notes, c, y, left, hour, found);
            if hour == 23 {
                lemma_walk_clear(notes, c, y1 + bh, left + 1, 0, found || in_row);
            } else {
                lemma_walk_clear(notes, c, y1 + bh, left, hour + 1, found || in_row);
            }
            assert forall|j: int| 0 <= j < w.rows.len() && (#[trigger] w.rows[j]).marked implies clear_of_edges(
                w.rows[j],
                c,
            ) by {
                if j > 0 {
                    let rest = if hour == 23 {
                        walk_from(notes, c, y1 + bh, left + 1, 0, found || in_row)
                    } else {
                        walk_from(notes, c, y1 + bh, left, hour + 1, found || in_row)
                    };
                    assert(w.rows[j] == rest.rows[j - 1]);
                }
            }
        }
    }
}

proof fn lemma_relax_rests(notes: NoteStore, c: WalkCtx, top: int, top_hour: int, passes: nat)
    requires
        relax(notes, c, top, top_hour, passes).converged,
    ensures
        ({
            let r = relax(notes, c, top, top_hour, passes);
            let w = walk_from(notes, c, 0, r.top, r.top_hour, false);
            w.shift.is_none() && w.rows == r.rows
        }),
    decreases passes,
{
    let w = walk_from(notes, c, 0, top, top_hour, false);
    if w.shift.is_some() && passes > 1 {
        let (t, h) = shifted(top, top_hour, w.shift->0);
        lemma_relax_rests(notes, c, t, h, (passes - 1) as nat);
    }
}

/// Once the relaxation has come to rest, the row that shows the selection lies
/// clear of the edges: not in the first or last day column, not within one
/// line of the top, not within two lines of the bottom.
pub proof fn lemma_selection_clear_of_edges(notes: NoteStore, c: WalkCtx, top: int, top_hour: int, passes: nat)
    requires
        relax(notes, c, top, top_hour, passes).converged,
    ensures
        ({
            let rows = relax(notes, c, top, top_hour, passes).rows;
            forall|j: int| 0 <= j < rows.len() && (#[trigger] rows[j]).marked ==> clear_of_edges(rows[j], c)
        }),
{
    lemma_relax_rests(notes, c, top, top_hour, passes);
    let r = relax(notes, c, top, top_hour, passes);
    lemma_walk_clear(notes, c, 0, r.top, r.top_hour, false);
}

/// Laying the grid out again with nothing changed in between gives the same
/// rows and leaves the anchor where it was, once a layout has come to rest.
pub proof fn lemma_layout_idempotent(notes: NoteStore, c: WalkCtx, top: int, top_hour: int, passes: nat)
    requires
        relax(notes, c, top, top_hour, passes).converged,
    ensures
        ({
            let r = relax(notes, c, top, top_hour, passes);
            relax(notes, c, r.top, r.top_hour, passes) == r
        }),
{
    lemma_relax_rests(notes, c, top, top_hour, passes);
}

proof fn lemma_walk_after_found(notes: NoteStore, c: WalkCtx, y: int, left: int, hour: int)
    ensures
        ({
            let rows = walk_from(notes, c, y, left, hour, true).rows;
            forall|j: int| 0 <= j < rows.len() ==> !(#[trigger] rows[j]).marked
        }),
    decreases (c.height + 2 - y) * 25 + (if hour == 0 { 0int } else { 24 - hour }),
{
    if !(y < 0 || y > c.height || hour < 0 || hour >= 24) {
        let show = hour == 0 || y == 0;
        let y1 = if show { y + 1 } else { y };
        let raw = max_lines(notes, left, hour, 7);
        let bh = if raw < c.height - y1 { raw } else { c.height - y1 };
        if y1 > c.height {
        } else if hour == 23 {
            lemma_walk_after_found(notes, c, y1 + bh, left + 1, 0);
        } else {
            lemma_walk_after_found(notes, c, y1 + bh, left, hour + 1);
        }
        let w = walk_from(notes, c, y, left, hour, true);
        assert forall|j: int| 0 <= j < w.rows.len() implies !(#[trigger] w.rows[j]).marked by {
            if j > 0 {
                let rest = if hour == 23 {
                    walk_from(notes, c, y1 + bh, left + 1, 0, true)
                } else {
                    walk_from(notes, c, y1 + bh, left, hour + 1, true)
                };
                assert(w.rows[j] == rest.rows[j - 1]);
            }
        }
    }
}

proof fn lemma_walk_one_marked(notes: NoteStore, c: WalkCtx, y: int, left: int, hour: int, found: bool)
    ensures
        ({
            let rows = walk_from(notes, c, y, left, hour, found).rows;
            forall|i: int, j: int|
                0 <= i < rows.len() && 0 <= j < rows.len() && (#[trigger] rows[i]).marked && (
                #[trigger] rows[j]).marked ==> i == j
        }),
    decreases (c.height + 2 - y) * 25 + (if hour == 0 { 0int } else { 24 - hour }),
{
    if !(y < 0 || y > c.height || hour < 0 || hour >= 24) {
        let show = hour == 0 || y == 0;
        let y1 = if show { y + 1 } else { y };
        let off = c.sel - left;
        let in_row = !found && hour == c.sel_hour && 0 <= off <= 6;
        let raw = max_lines(notes, left, hour, 7);
        let bh = if raw < c.height - y1 { raw } else { c.height - y1 };
        let (nl, nh) = if hour == 23 { (left + 1, 0int) } else { (left, hour + 1) };
        let rest = walk_from(notes, c, y1 + bh, nl, nh, found || in_row);
        if y1 <= c.height {
            lemma_walk_one_marked(notes, c, y1 + bh, nl, nh, found || in_row);
            if in_row {
                lemma_walk_after_found(notes, c, y1 + bh, nl, nh);
            }
        }
        let w = walk_from(notes, c, y, left, hour, found);
        assert forall|i: int, j: int|
            0 <= i < w.rows.len() && 0 <= j < w.rows.len() && (#[trigger] w.rows[i]).marked && (
            #[trigger] w.rows[j]).marked implies i == j by {
            if i > 0 {
                assert(w.rows[i] == rest.rows[i - 1]);
            }
            if j > 0 {
                assert(w.rows[j] == rest.rows[j - 1]);
            }
        }
    }
}

proof fn lemma_relax_rows(notes: NoteStore, c: WalkCtx, top: int, top_hour: int, passes: nat)
    ensures
        ({
            let r = relax(notes, c, top, top_hour, passes);
            r.rows == walk_from(notes, c, 0, r.top, r.top_hour, false).rows
        }),
    decreases passes,
{
    let w = walk_from(notes, c, 0, top, top_hour, false);
    if w.shift.is_some() && passes > 1 {
        let (t, h) = shifted(top, top_hour, w.shift->0);
        lemma_relax_rows(notes, c, t, h, (passes - 1) as nat);
    }
}

/// A layout shows the selection in at most one row, and in that row only in
/// the column of its date, so at most one cell is drawn as selected.
pub proof fn lemma_one_selected_row(notes: NoteStore, c: WalkCtx, top: int, top_hour: int, passes: nat)
    ensures
        ({
            let rows = relax(notes, c, top, top_hour, passes).rows;
            forall|i: int, j: int|
                0 <= i < rows.len() && 0 <= j < rows.len() && (#[trigger] rows[i]).marked && (
                #[trigger] rows[j]).marked ==> i == j
        }),
{
    lemma_relax_rows(notes, c, top, top_hour, passes);
    let r = relax(notes, c, top, top_hour, passes);
    lemma_walk_one_marked(notes, c, 0, r.top, r.top_hour, false);
}

/// One day column of an hour row.
pub struct WeekCell {
    pub date: Date,
    pub summary: String,
    pub selected: bool,
    pub today: bool,
    pub label_style: Style,
    pub frame_style: Style,
    pub text_style: Style,
}

/// A week cell's styles follow its flags: the selection black on red, the
/// current hour (where not selected) a yellow label, others the defaults.
pub open spec fn cell_styled(cell: WeekCell) -> bool {
    &&& cell.label_style.fg == label_fg(cell.selected, cell.today, true)
    &&& cell.label_style.bg == cell_bg(cell.selected)
    &&& !cell.label_style.bold
    &&& cell.frame_style.fg.is_none()
    &&& cell.frame_style.bg == cell_bg(cell.selected)
    &&& !cell.frame_style.bold
    &&& cell.text_style.fg == (if cell.selected { Some(Color::Black) } else { None })
    &&& cell.text_style.bg == cell_bg(cell.selected)
    &&& !cell.text_style.bold
}

/// One hour row, with its seven cells.
pub struct WeekRow {
    pub show_date: bool,
    pub y: u16,
    pub hour: u8,
    pub height: u16,
    pub cells: Vec<WeekCell>,
}

/// A laid-out week grid: its rows, and whether the selection came to rest.
pub struct WeekPlan {
    pub rows: Vec<WeekRow>,
    pub converged: bool,
}

/// Row `r` is the row `s` describes: column `i` shows day `s.left + i`, its
/// note for the row's hour, whether it is the selection, and whether it is now.
pub open spec fn row_is(r: WeekRow, s: RowSpec, notes: NoteStore, c: WalkCtx) -> bool {
    &&& r.show_date == s.show_date
    &&& r.y as int == s.y
    &&& r.hour as int == s.hour
    &&& r.height as int == s.height
    &&& r.cells@.len() == 7
    &&& forall|i: int|
        0 <= i < 7 ==> {
            let cell = #[trigger] r.cells@[i];
            &&& cell.date@ == s.left + i
            &&& cell.summary@ == notes.hour_note(s.left + i, s.hour)
            &&& cell.selected == (s.marked && s.left + i == c.sel)
            &&& cell.today == (s.left + i == c.today && s.hour == c.now)
            &&& cell_styled(cell)
        }
}

/// The rows `rows` are those `specs` describes, one for one.
pub open spec fn rows_are(rows: Seq<WeekRow>, specs: Seq<RowSpec>, notes: NoteStore, c: WalkCtx) -> bool {
    &&& rows.len() == specs.len()
    &&& forall|j: int| 0 <= j < rows.len() ==> row_is(#[trigger] rows[j], specs[j], notes, c)
}

/// Where column `offset` (0 to 6) of a grid `width` wide starts, and how wide
/// it is: the columns share `width + 1` as evenly as integer division allows,
/// the last one a column narrower.
pub fn column_span(width: u16, offset: u16) -> (r: (u16, u16))
    requires
        offset < 7,
    ensures
        r.0 as int == (width + 1) * offset / 7,
        r.1 as int == (width + 1) * (offset + 1) / 7 - (width + 1) * offset / 7 - (if offset == 6 {
            1int
        } else {
            0int
        }),
{
    let w: u32 = width as u32 + 1;
    let o: u32 = offset as u32;
    assert(w * o <= w * (o + 1) <= 7 * w) by (nonlinear_arith)
        requires
            o < 7,
    ;
    proof {
        vstd::arithmetic::div_mod::lemma_div_is_ordered(w * o, w * (o + 1), 7);
    }
    proof {
        vstd::arithmetic::div_mod::lemma_div_is_ordered(w * (o + 1), 7 * w, 7);
    }
    proof {
        vstd::arithmetic::div_mod::lemma_div_by_multiple(w as int, 7);
    }
    let x0 = w * o / 7;
    let x1 = w * (o + 1) / 7;
    if o == 6 {
        assert(x1 == w);
        assert(x0 < w) by {
            assert(w * 6 <= 7 * w - 1) by (nonlinear_arith)
                requires
                    w >= 1,
            ;
            vstd::arithmetic::div_mod::lemma_div_is_ordered((w * 6) as int, (7 * w - 1) as int, 7);
            assert((7 * w - 1) / 7 < w as int) by {
                vstd::arithmetic::div_mod::lemma_fundamental_div_mod((7 * w - 1) as int, 7);
            }
        }
        (x0 as u16, (x1 - x0 - 1) as u16)
    } else {
        assert(x1 < 65536) by {
            assert(w * (o + 1) <= 6 * 65536) by (nonlinear_arith)
                requires
                    o < 6,
                    w <= 65536,
            ;
            vstd::arithmetic::div_mod::lemma_div_is_ordered((w * (o + 1)) as int, 6 * 65536int, 7);
        }
        (x0 as u16, (x1 - x0) as u16)
    }
}

/// Where a caption `len` characters long starts, centred over column
/// `offset` (0 to 6) of a grid `width` wide; 0 where it would start before
/// the viewport.
pub fn caption_x(width: u16, offset: u16, len: usize) -> (r: u16)
    requires
        offset < 7,
    ensures
        r as int == (if 1 + (1 + 2 * offset) * width / 14 >= len / 2 {
            1 + (1 + 2 * offset) * width / 14 - len / 2
        } else {
            0
        }),
{
    let o: u32 = offset as u32;
    let w: u32 = width as u32;
    assert((1 + 2 * o) * w <= 13 * w) by (nonlinear_arith)
        requires
            o < 7,
    ;
    proof {
        vstd::arithmetic::div_mod::lemma_div_is_ordered(((1 + 2 * o) * w) as int, (14 * w) as int, 14);
    }
    proof {
        vstd::arithmetic::div_mod::lemma_div_by_multiple(w as int, 14);
    }
    let centre: u32 = 1 + (1 + 2 * o) * w / 14;
    let half = len / 2;
    if (centre as usize) >= half {
        (centre as usize - half) as u16
    } else {
        0
    }
}

impl WeekView {
    /// Hours lie in 0..=23, the selection in the navigable range, and the
    /// anchor within `TOP_LIMIT` days of day 0.
    pub open spec fn wf(&self) -> bool {
        &&& -NAV_LIMIT <= self@.date <= NAV_LIMIT
        &&& 0 <= self@.hour < 24
        &&& -TOP_LIMIT <= self@.top <= TOP_LIMIT
        &&& 0 <= self@.top_hour < 24
    }

    /// The anchor a selection at `date`, `hour` starts with.
    fn anchored(date: Date, hour: u8) -> (r: (Date, u8))
        requires
            date.navigable(),
            hour < 24,
        ensures
            r.0@ == date@ - anchor_offset(date@, hour as int),
            r.1 as int == hour_before(hour as int),
            -TOP_LIMIT <= r.0@ <= TOP_LIMIT,
    {
        let base = if hour == 0 {
            date.add_days(-1)
        } else {
            date
        };
        let w = base.weekday();
        let off: u32 = if w < 1 {
            1
        } else if w > 5 {
            5
        } else {
            w
        };
        (date.add_days(-(off as i32)), (hour + 23) % 24)
    }

    /// A week grid with the selection at `date`, `hour`, and the anchor
    /// `anchor_offset(date, hour)` days earlier, one hour before the selection.
    pub fn new(date: Date, hour: u8) -> (r: WeekView)
        requires
            date.navigable(),
            hour < 24,
        ensures
            r.wf(),
            r@ == (WeekState {
                date: date@,
                hour: hour as int,
                top: date@ - anchor_offset(date@, hour as int),
                top_hour: hour_before(hour as int),
                request: None,
            }),
    {
        let (top, top_hour) = WeekView::anchored(date, hour);
        WeekView {
            selected_date: date,
            selected_hour: hour,
            top_left_date: top,
            top_hour,
            request: None,
        }
    }

    /// Takes a date from the month grid: where it differs from the selected
    /// date, selects it at `SYNC_HOUR` and anchors anew; else changes nothing.
    pub fn set_date(&mut self, date: Date)
        requires
            old(self).wf(),
            date.navigable(),
        ensures
            final(self).wf(),
            date@ != old(self)@.date ==> final(self)@ == (WeekState {
                date: date@,
                hour: SYNC_HOUR as int,
                top: date@ - anchor_offset(date@, SYNC_HOUR as int),
                top_hour: hour_before(SYNC_HOUR as int),
                request: old(self)@.request,
            }),
            date@ == old(self)@.date ==> final(self)@ == old(self)@,
    {
        if date.days != self.selected_date.days {
            let (top, top_hour) = WeekView::anchored(date, SYNC_HOUR);
            self.selected_date = date;
            self.selected_hour = SYNC_HOUR;
            self.top_left_date = top;
            self.top_hour = top_hour;
        }
    }

    /// The selected date.
    pub fn get_date(&self) -> (r: Date)
        ensures
            r@ == self@.date,
    {
        self.selected_date
    }

    /// The selected hour.
    pub fn selected_hour(&self) -> (r: u8)
        ensures
            r as int == self@.hour,
    {
        self.selected_hour
    }

    /// The date of the grid's first column at its top row.
    pub fn top_left_date(&self) -> (r: Date)
        ensures
            r@ == self@.top,
    {
        self.top_left_date
    }

    /// The hour of the grid's top row.
    pub fn top_hour(&self) -> (r: u8)
        ensures
            r as int == self@.top_hour,
    {
        self.top_hour
    }

    /// One hour earlier; hour 0 goes to hour 23 of the day before. Needs no redraw.
    pub fn up(&mut self) -> (r: bool)
        requires
            old(self).wf(),
            old(self)@.hour == 0 ==> old(self)@.date - 1 >= -NAV_LIMIT,
        ensures
            final(self).wf(),
            !r,
            final(self)@ == hour_up(old(self)@),
    {
        if self.selected_hour == 0 {
            self.selected_hour = 23;
            self.selected_date = self.selected_date.add_days(-1);
        } else {
            self.selected_hour = self.selected_hour - 1;
        }
        false
    }

    /// One hour later; hour 23 goes to hour 0 of the day after. Needs no redraw.
    pub fn down(&mut self) -> (r: bool)
        requires
            old(self).wf(),
            old(self)@.hour == 23 ==> old(self)@.date + 1 <= NAV_LIMIT,
        ensures
            final(self).wf(),
            !r,
            final(self)@ == hour_down(old(self)@),
    {
        if self.selected_hour == 23 {
            self.selected_hour = 0;
            self.selected_date = self.selected_date.add_days(1);
        } else {
            self.selected_hour = self.selected_hour + 1;
        }
        false
    }

    /// The day before, at the same hour. Needs no redraw.
    pub fn left(&mut self) -> (r: bool)
        requires
            old(self).wf(),
            old(self)@.date - 1 >= -NAV_LIMIT,
        ensures
            final(self).wf(),
            !r,
            final(self)@ == day_moved(old(self)@, -1),
    {
        self.selected_date = self.selected_date.add_days(-1);
        false
    }

    /// The day after, at the same hour. Needs no redraw.
    pub fn right(&mut self) -> (r: bool)
        requires
            old(self).wf(),
            old(self)@.date + 1 <= NAV_LIMIT,
        ensures
            final(self).wf(),
            !r,
            final(self)@ == day_moved(old(self)@, 1),
    {
        self.selected_date = self.selected_date.add_days(1);
        false
    }

    /// Asks for an edit of the selected hour's note; the editor takes the
    /// terminal, so this needs a redraw.
    pub fn enter(&mut self) -> (r: bool)
        requires
            old(self).wf(),
        ensures
            r,
            final(self).wf(),
            final(self)@ == entered(old(self)@),
    {
        self.request = Some(NoteKey::Hour(self.selected_date, self.selected_hour));
        true
    }

    /// Hands out the edit asked for, if any, and forgets it.
    pub fn take_request(&mut self) -> (r: Option<NoteKey>)
        ensures
            r == old(self)@.request,
            final(self)@ == (WeekState { request: None, ..old(self)@ }),
    {
        let r = self.request;
        self.request = None;
        r
    }

    /// One walk down the grid from the anchor: the rows laid out until the
    /// viewport is full or a move is asked for, and that move. A walk that asks
    /// for a move has seen the selection, and a viewport of at most 65 535 lines
    /// shows no day more than 65 542 days after the anchor.
    fn walk(&self, notes: &NoteStore, height: u16, today: Date, now: u8) -> (res: (
        Vec<WeekRow>,
        Option<Shift>,
    ))
        requires
            self.wf(),
        ensures
            ({
                let c = ctx_of(self@, height as int, today@, now as int);
                let w = walk_from(*notes, c, 0, self@.top, self@.top_hour, false);
                &&& res.1 == w.shift
                &&& rows_are(res.0@, w.rows, *notes, c)
            }),
            res.1.is_some() ==> self@.top <= self@.date <= self@.top + 65542,
    {
        let ghost c = ctx_of(self@, height as int, today@, now as int);
        let ghost w0 = walk_from(*notes, c, 0, self@.top, self@.top_hour, false);
        let mut rows: Vec<WeekRow> = Vec::new();
        let ghost mut acc: Seq<RowSpec> = Seq::empty();
        let mut y: u32 = 0;
        let mut left: Date = self.top_left_date;
        let mut hour: u8 = self.top_hour;
        let mut found = false;
        let sel = self.selected_date.days;
        let h = height as u32;
        assert(acc + w0.rows =~= w0.rows);
        loop
            invariant
                self.wf(),
                c == ctx_of(self@, height as int, today@, now as int),
                w0 == walk_from(*notes, c, 0, self@.top, self@.top_hour, false),
                sel as int == self@.date,
                h as int == height as int,
                y <= h,
                hour < 24,
                self@.top <= left@ <= self@.top + y + (if hour == 0 { 1int } else { 0int }),
                ({
                    let cur = walk_from(*notes, c, y as int, left@, hour as int, found);
                    w0.rows == acc + cur.rows && w0.shift == cur.shift
                }),
                rows_are(rows@, acc, *notes, c),
            decreases (h + 2 - y) * 25 + (if hour == 0 { 0int } else { 24 - hour }),
        {
            let ghost cur = walk_from(*notes, c, y as int, left@, hour as int, found);
            let show = hour == 0 || y == 0;
            let y1: u32 = if show {
                y + 1
            } else {
                y
            };
            if y1 > h {
                assert(acc + cur.rows =~= acc);
                return (rows, None);
            }
            let in_row = !found && hour == self.selected_hour && left.days <= sel && sel
                - left.days <= 6;
            let off: i32 = if in_row {
                sel - left.days
            } else {
                0
            };
            if in_row && off == 0 {
                assert(acc + cur.rows =~= acc);
                return (rows, Some(Shift::Left));
            }
            if in_row && off == 6 {
                assert(acc + cur.rows =~= acc);
                return (rows, Some(Shift::Right));
            }
            let mut cells: Vec<WeekCell> = Vec::new();
            let mut raw: usize = MIN_ROW_HEIGHT;
            let mut i: i32 = 0;
            while i < 7
                invariant
                    0 <= i <= 7,
                    c == ctx_of(self@, height as int, today@, now as int),
                    sel as int == self@.date,
                    self@.top <= left@ <= self@.top + 65537,
                    self.wf(),
                    hour < 24,
                    raw as int == max_lines(*notes, left@, hour as int, i as int),
                    cells@.len() == i,
                    forall|k: int|
                        0 <= k < i ==> {
                            let cell = #[trigger] cells@[k];
                            &&& cell.date@ == left@ + k
                            &&& cell.summary@ == notes.hour_note(left@ + k, hour as int)
                            &&& cell.selected == (in_row && left@ + k == c.sel)
                            &&& cell.today == (left@ + k == c.today && hour as int == c.now)
                            &&& cell_styled(cell)
                        },
                decreases 7 - i,
            {
                let d = left.add_days(i);
                let summary = notes.get_hour(d, hour);
                let lc = line_count(summary.as_str());
                if lc > raw {
                    raw = lc;
                }
                let selected = in_row && d.days == sel;
                let is_now = d.days == today.days && hour == now;
                cells.push(
                    WeekCell {
                        date: d,
                        summary,
                        selected,
                        today: is_now,
                        label_style: label_style(selected, is_now, true, false),
                        frame_style: frame_style(selected),
                        text_style: text_style(selected),
                    },
                );
                i = i + 1;
            }
            if in_row && y1 <= 1 {
                assert(acc + cur.rows =~= acc);
                return (rows, Some(Shift::Up));
            }
            if in_row && (raw as u128) + (y1 as u128) + 2 >= h as u128 {
                assert(acc + cur.rows =~= acc);
                return (rows, Some(Shift::Down));
            }
            let room: u32 = h - y1;
            let bh: u32 = if (raw as u128) < (room as u128) {
                raw as u32
            } else {
                room
            };
            let ghost spec_row = RowSpec {
                show_date: show,
                y: y as int,
                hour: hour as int,
                height: bh as int,
                left: left@,
                marked: in_row,
            };
            let row = WeekRow { show_date: show, y: y as u16, hour, height: bh as u16, cells };
            assert(row_is(row, spec_row, *notes, c));
            rows.push(row);
            proof {
                assert(acc.push(spec_row) + walk_from(
                    *notes,
                    c,
                    y1 + bh,
                    if hour == 23 { left@ + 1 } else { left@ },
                    if hour == 23 { 0 } else { hour + 1 },
                    found || in_row,
                ).rows =~= acc + cur.rows);
                acc = acc.push(spec_row);
            }
            y = y1 + bh;
            found = found || in_row;
            if hour == 23 {
                hour = 0;
                left = left.add_days(1);
            } else {
                hour = hour + 1;
            }
        }
    }

    fn apply_shift(&mut self, s: Shift)
        requires
            old(self).wf(),
            old(self)@.top <= old(self)@.date <= old(self)@.top + 65542,
        ensures
            final(self).wf(),
            ({
                let (t, th) = shifted(old(self)@.top, old(self)@.top_hour, s);
                final(self)@ == WeekState { top: t, top_hour: th, ..old(self)@ }
            }),
    {
        match s {
            Shift::Left => {
                self.top_left_date = self.top_left_date.add_days(-1);
            },
            Shift::Right => {
                self.top_left_date = self.top_left_date.add_days(1);
            },
            Shift::Up => {
                if self.top_hour == 0 {
                    self.top_hour = 23;
                    self.top_left_date = self.top_left_date.add_days(-1);
                } else {
                    self.top_hour = self.top_hour - 1;
                }
            },
            Shift::Down => {
                if self.top_hour == 23 {
                    self.top_hour = 0;
                    self.top_left_date = self.top_left_date.add_days(1);
                } else {
                    self.top_hour = self.top_hour + 1;
                }
            },
        }
    }

    /// Lays the grid out in a viewport `height` lines high, moving the anchor
    /// as `relax` does over `MAX_PASSES` walks; the anchor keeps its last
    /// position. `today` and `now` mark the current day and hour.
    pub fn draw(&mut self, notes: &NoteStore, height: u16, today: Date, now: u8) -> (plan: WeekPlan)
        requires
            old(self).wf(),
        ensures
            final(self).wf(),
            ({
                let c = ctx_of(old(self)@, height as int, today@, now as int);
                let r = relax(*notes, c, old(self)@.top, old(self)@.top_hour, MAX_PASSES as nat);
                &&& final(self)@ == WeekState { top: r.top, top_hour: r.top_hour, ..old(self)@ }
                &&& plan.converged == r.converged
                &&& rows_are(plan.rows@, r.rows, *notes, c)
            }),
    {
        let ghost c = ctx_of(self@, height as int, today@, now as int);
        let ghost r0 = relax(*notes, c, self@.top, self@.top_hour, MAX_PASSES as nat);
        let ghost s0 = self@;
        let mut passes: u32 = 1;
        loop
            invariant
                self.wf(),
                1 <= passes <= MAX_PASSES,
                c == ctx_of(self@, height as int, today@, now as int),
                self@ == (WeekState { top: self@.top, top_hour: self@.top_hour, ..s0 }),
                s0 == old(self)@,
                c == ctx_of(old(self)@, height as int, today@, now as int),
                r0 == relax(*notes, c, s0.top, s0.top_hour, MAX_PASSES as nat),
                r0 == relax(*notes, c, self@.top, self@.top_hour, (MAX_PASSES - passes + 1) as nat),
            decreases MAX_PASSES - passes,
        {
            let (rows, shift) = self.walk(notes, height, today, now);
            match shift {
                None => {
                    return WeekPlan { rows, converged: true };
                },
                Some(s) => {
                    if passes >= MAX_PASSES {
                        return WeekPlan { rows, converged: false };
                    }
                    self.apply_shift(s);
                    passes = passes + 1;
                },
            }
        }
    }
}

} // verus!
