//! The month grid: a selected date, and a six-week grid of day cells that
//! starts on the Monday on or before the first of the selected month.
use vstd::prelude::*;
use vstd::string::*;
use crate::date::{Date, day_of, month_of, weekday_of, NAV_LIMIT};
use crate::notes::{NoteStore, NoteKey};
use crate::style::{Color, Style, label_style, frame_style, text_style, label_fg, cell_bg};
use crate::text::{month_title, month_title_of, day_label, day_label_of, shown_lines, shown_lines_of};

verus! {

/// Weeks in the month grid.
pub const GRID_WEEKS: u16 = 6;

/// Lines above the month grid, for its title and the weekday names.
pub const HEADER_LINES: u16 = 3;

/// What a month grid holds: the selected date and the note edit it asks for.
pub struct MonthState {
    pub date: int,
    pub request: Option<NoteKey>,
}

/// The month grid's cursor.
pub struct MonthView {
    selected_date: Date,
    request: Option<NoteKey>,
}

impl View for MonthView {
    type V = MonthState;

    closed spec fn view(&self) -> MonthState {
        MonthState { date: self.selected_date@, request: self.request }
    }
}

/// The state after moving the selection by `n` days.
pub open spec fn moved(s: MonthState, n: int) -> MonthState {
    MonthState { date: s.date + n, ..s }
}

/// The state after an edit of the selected day's note is asked for.
pub open spec fn entered(s: MonthState) -> MonthState {
    MonthState { request: Some(NoteKey::Day(Date { days: s.date as i32 })), ..s }
}

/// The first day of the month of `d`.
pub open spec fn first_of_month(d: int) -> int {
    d - (day_of(d) - 1)
}

/// The first cell of the grid for the month of `d`: the Monday on or before
/// the first of that month.
pub open spec fn grid_origin_of(d: int) -> int {
    first_of_month(d) - weekday_of(first_of_month(d))
}

/// The text a cell shows for day `d`: its note, then the notes of its hours
/// 0 to `n - 1` in order.
pub open spec fn hours_text(notes: NoteStore, d: int, n: int) -> Seq<char>
    decreases n,
{
    if n <= 0 {
        notes.day_note(d)
    } else {
        hours_text(notes, d, n - 1) + notes.hour_note(d, n - 1)
    }
}

/// One day cell of the month grid, with its place and size in the viewport;
/// `lines` are the lines of `text` that fit in it.
pub struct MonthCell {
    pub date: Date,
    pub x: u16,
    pub y: u16,
    pub width: u16,
    pub height: u16,
    pub label: String,
    pub label_style: Style,
    pub frame_style: Style,
    pub text: String,
    pub text_style: Style,
    pub max_lines: u16,
    pub lines: Vec<String>,
    pub selected: bool,
    pub today: bool,
    pub in_month: bool,
}

/// A laid-out month grid: its title and its 42 cells, week by week.
pub struct MonthPlan {
    pub title: String,
    pub cells: Vec<MonthCell>,
}

/// Cell `k` of the grid for selection `sel`, in a viewport `width` by `height`:
/// column `k % 7` and week `k / 7` share the viewport, less one column and the
/// header's lines, as evenly as integer division allows.
pub open spec fn month_cell_is(
    cell: MonthCell,
    k: int,
    sel: int,
    today: int,
    notes: NoteStore,
    width: int,
    height: int,
) -> bool {
    let day = k % 7;
    let week = k / 7;
    let w = width - 1;
    let h = height - 4;
    let d = grid_origin_of(sel) + k;
    let in_month = month_of(d) == month_of(sel);
    &&& cell.date@ == d
    &&& cell.x as int == day * w / 7
    &&& cell.y as int == HEADER_LINES + week * h / 6
    &&& cell.width as int == (day + 1) * w / 7 - day * w / 7 + 1
    &&& cell.height as int == (week + 1) * h / 6 - week * h / 6 + 1
    &&& cell.max_lines as int == (if cell.height >= 3 { cell.height - 3 } else { 0 })
    &&& cell.selected == (d == sel)
    &&& cell.today == (d == today)
    &&& cell.in_month == in_month
    &&& cell.label@ == day_label_of(d, in_month)
    &&& cell.label_style.fg == label_fg(d == sel, d == today, in_month)
    &&& cell.label_style.bg == cell_bg(d == sel)
    &&& cell.label_style.bold == in_month
    &&& cell.frame_style.fg.is_none()
    &&& cell.frame_style.bg == cell_bg(d == sel)
    &&& !cell.frame_style.bold
    &&& cell.text_style.fg == (if d == sel { Some(Color::Black) } else { None })
    &&& cell.text_style.bg == cell_bg(d == sel)
    &&& !cell.text_style.bold
    &&& cell.text@ == hours_text(notes, d, 24)
    &&& cell.lines@.map_values(|l: String| l@) == shown_lines_of(
        cell.text@,
        cell.max_lines as int,
        cell.width - 1,
    )
}

/// Where the name of weekday `day` (Monday = 0) stands over a grid `width`
/// wide: near the middle of its column.
pub fn header_x(width: u16, day: u16) -> (r: u16)
    requires
        width >= 1,
        day < 7,
    ensures
        r as int == 1 + (1 + 2 * day) * (width - 1) / 14,
{
    let w: u32 = width as u32 - 1;
    let d: u32 = day as u32;
    assert((1 + 2 * d) * w <= 13 * w) by (nonlinear_arith)
        requires
            d < 7,
    ;
    proof {
        vstd::arithmetic::div_mod::lemma_div_is_ordered(((1 + 2 * d) * w) as int, (14 * w) as int, 14);
        vstd::arithmetic::div_mod::lemma_div_by_multiple(w as int, 14);
    }
    (1 + (1 + 2 * d) * w / 14) as u16
}

impl MonthView {
    /// The selection lies in the navigable range.
    pub open spec fn wf(&self) -> bool {
        -NAV_LIMIT <= self@.date <= NAV_LIMIT
    }

    /// A month grid with `date` selected.
    pub fn new(date: Date) -> (r: MonthView)
        requires
            date.navigable(),
        ensures
            r.wf(),
            r@ == (MonthState { date: date@, request: None }),
    {
        MonthView { selected_date: date, request: None }
    }

    /// Selects `date`.
    pub fn set_date(&mut self, date: Date)
        requires
            date.navigable(),
        ensures
            final(self).wf(),
            final(self)@ == (MonthState { date: date@, ..old(self)@ }),
    {
        self.selected_date = date;
    }

    /// The selected date.
    pub fn get_date(&self) -> (r: Date)
        ensures
            r@ == self@.date,
    {
        self.selected_date
    }

    fn move_by(&mut self, n: i32)
        requires
            old(self).wf(),
            -7 <= n <= 7,
            -NAV_LIMIT <= old(self)@.date + n <= NAV_LIMIT,
        ensures
            final(self).wf(),
            final(self)@ == moved(old(self)@, n as int),
    {
        self.selected_date = self.selected_date.add_days(n);
    }

    /// Seven days earlier. Needs no redraw.
    pub fn up(&mut self) -> (r: bool)
        requires
            old(self).wf(),
            old(self)@.date - 7 >= -NAV_LIMIT,
        ensures
            final(self).wf(),
            !r,
            final(self)@ == moved(old(self)@, -7),
    {
        self.move_by(-7);
        false
    }

    /// Seven days later. Needs no redraw.
    pub fn down(&mut self) -> (r: bool)
        requires
            old(self).wf(),
            old(self)@.date + 7 <= NAV_LIMIT,
        ensures
            final(self).wf(),
            !r,
            final(self)@ == moved(old(self)@, 7),
    {
        self.move_by(7);
        false
    }

    /// The day before. Needs no redraw.
    pub fn left(&mut self) -> (r: bool)
        requires
            old(self).wf(),
            old(self)@.date - 1 >= -NAV_LIMIT,
        ensures
            final(self).wf(),
            !r,
            final(self)@ == moved(old(self)@, -1),
    {
        self.move_by(-1);
        false
    }

    /// The day after. Needs no redraw.
    pub fn right(&mut self) -> (r: bool)
        requires
            old(self).wf(),
            old(self)@.date + 1 <= NAV_LIMIT,
        ensures
            final(self).wf(),
            !r,
            final(self)@ == moved(old(self)@, 1),
    {
        self.move_by(1);
        false
    }

    /// Asks for an edit of the selected day's note; the selection stays. The
    /// editor takes the terminal, so this needs a redraw.
    pub fn enter(&mut self) -> (r: bool)
        requires
            old(self).wf(),
        ensures
            r,
            final(self).wf(),
            final(self)@ == entered(old(self)@),
    {
        self.request = Some(NoteKey::Day(self.selected_date));
        true
    }

    /// Hands out the edit asked for, if any, and forgets it.
    pub fn take_request(&mut self) -> (r: Option<NoteKey>)
        ensures
            r == old(self)@.request,
            final(self)@ == (MonthState { request: None, ..old(self)@ }),
    {
        let r = self.request;
        self.request = None;
        r
    }

    /// The first cell of the grid: a Monday, at most 36 days before the
    /// selection, so that the selection lies among the grid's 42 cells.
    pub fn grid_origin(&self) -> (r: Date)
        requires
            self.wf(),
        ensures
            r@ == grid_origin_of(self@.date),
            weekday_of(r@) == 0,
            r@ <= self@.date < r@ + 42,
    {
        let day = self.selected_date.day();
        let first = self.selected_date.add_days(-((day - 1) as i32));
        let w = first.weekday();
        let r = first.add_days(-(w as i32));
        proof {
            let x = first@ - 1;
            vstd::arithmetic::div_mod::lemma_fundamental_div_mod(x, 7);
            assert(r@ - 1 == 7 * (x / 7));
            vstd::arithmetic::div_mod::lemma_mod_multiples_basic(x / 7, 7);
        }
        r
    }

    /// Lays the grid out in a viewport `width` by `height`, with the notes of
    /// `notes`; `today` is marked.
    pub fn draw(&self, notes: &NoteStore, width: u16, height: u16, today: Date) -> (plan: MonthPlan)
        requires
            self.wf(),
            width >= 1,
            height >= 4,
        ensures
            plan.title@ == month_title_of(self@.date),
            plan.cells@.len() == 42,
            forall|k: int|
                0 <= k < 42 ==> month_cell_is(
                    #[trigger] plan.cells@[k],
                    k,
                    self@.date,
                    today@,
                    *notes,
                    width as int,
                    height as int,
                ),
    {
        let origin = self.grid_origin();
        let sel_month = self.selected_date.month();
        let w: u32 = width as u32 - 1;
        let h: u32 = height as u32 - 4;
        let mut cells: Vec<MonthCell> = Vec::new();
        let mut k: u32 = 0;
        while k < 42
            invariant
                self.wf(),
                origin@ == grid_origin_of(self@.date),
                origin@ <= self@.date < origin@ + 42,
                sel_month as int == month_of(self@.date),
                w as int == width - 1,
                h as int == height - 4,
                w < 65536,
                h < 65536,
                k <= 42,
                cells@.len() == k,
                forall|j: int|
                    0 <= j < k ==> month_cell_is(
                        #[trigger] cells@[j],
                        j,
                        self@.date,
                        today@,
                        *notes,
                        width as int,
                        height as int,
                    ),
            decreases 42 - k,
        {
            let day = k % 7;
            let week = k / 7;
            let d = origin.add_days(k as i32);
            let selected = d.days == self.selected_date.days;
            let is_today = d.days == today.days;
            let in_month = d.month() == sel_month;
            assert(day * w <= 6 * w) by (nonlinear_arith)
                requires
                    day < 7,
            ;
            assert((day + 1) * w <= 7 * w) by (nonlinear_arith)
                requires
                    day < 7,
            ;
            assert(week * h <= 5 * h) by (nonlinear_arith)
                requires
                    week < 6,
            ;
            assert((week + 1) * h <= 6 * h) by (nonlinear_arith)
                requires
                    week < 6,
            ;
            assert(day * w / 7 <= (day + 1) * w / 7) by {
                assert(day * w <= (day + 1) * w) by (nonlinear_arith);
                vstd::arithmetic::div_mod::lemma_div_is_ordered(day * w, (day + 1) * w, 7);
            }
            assert(week * h / 6 <= (week + 1) * h / 6) by {
                assert(week * h <= (week + 1) * h) by (nonlinear_arith);
                vstd::arithmetic::div_mod::lemma_div_is_ordered(week * h, (week + 1) * h, 6);
            }
            assert((day + 1) * w / 7 <= w) by {
                vstd::arithmetic::div_mod::lemma_div_is_ordered((day + 1) * w, 7 * w, 7);
                vstd::arithmetic::div_mod::lemma_div_by_multiple(w as int, 7);
            }
            assert((week + 1) * h / 6 <= h) by {
                vstd::arithmetic::div_mod::lemma_div_is_ordered((week + 1) * h, 6 * h, 6);
                vstd::arithmetic::div_mod::lemma_div_by_multiple(h as int, 6);
            }
            let x0 = day * w / 7;
            let x1 = (day + 1) * w / 7;
            let y0 = week * h / 6;
            let y1 = (week + 1) * h / 6;
            let cell_height: u32 = y1 - y0 + 1;
            let mut text = notes.get_day(d);
            let mut hour: u8 = 0;
            while hour < 24
                invariant
                    hour <= 24,
                    d.wf(),
                    text@ == hours_text(*notes, d@, hour as int),
                decreases 24 - hour,
            {
                let note = notes.get_hour(d, hour);
                text.append(note.as_str());
                hour = hour + 1;
            }
            let max_lines: u16 = if cell_height >= 3 {
                (cell_height - 3) as u16
            } else {
                0
            };
            let lines = shown_lines(text.as_str(), max_lines as usize, (x1 - x0) as usize);
            let cell = MonthCell {
                date: d,
                x: x0 as u16,
                y: (HEADER_LINES as u32 + y0) as u16,
                width: (x1 - x0 + 1) as u16,
                height: cell_height as u16,
                label: day_label(&d, in_month),
                label_style: label_style(selected, is_today, in_month, in_month),
                frame_style: frame_style(selected),
                text,
                text_style: text_style(selected),
                max_lines,
                lines,
                selected,
                today: is_today,
                in_month,
            };
            cells.push(cell);
            k = k + 1;
        }
        MonthPlan { title: month_title(&self.selected_date), cells }
    }
}

/// Asking for an edit leaves the selection where it was, so moving up after
/// it lands exactly seven days before the date selected when it was asked for.
pub proof fn lemma_up_after_enter(s: MonthState)
    ensures
        moved(entered(s), -7).date == s.date - 7,
        entered(s).date == s.date,
{
}

} // verus!
