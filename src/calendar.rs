//! The calendar: a month grid and a week grid, one of them shown, with the
//! selected date handed over when the shown grid changes.
use vstd::prelude::*;
use crate::date::{Date, NAV_LIMIT};
use crate::month::{MonthView, MonthState, MonthPlan, moved, month_cell_is, entered};
use crate::text::month_title_of;
use crate::notes::{NoteStore, NoteKey};
use crate::week::{
    WeekView, WeekState, WeekPlan, hour_up, hour_down, day_moved, anchor_offset, hour_before,
    SYNC_HOUR, MAX_PASSES, entered as week_entered, ctx_of, relax, rows_are,
};

verus! {

/// Which grid is shown.
#[derive(Clone, Copy, Debug, PartialEq, Eq, Structural)]
pub enum Mode {
    Month,
    Week,
}

/// The laid-out shown grid.
pub enum CalendarPlan {
    Month(MonthPlan),
    Week(WeekPlan),
}

/// What a calendar holds: the shown grid and the state of each grid.
pub struct CalendarState {
    pub mode: Mode,
    pub month: MonthState,
    pub week: WeekState,
}

/// The month grid and the week grid, and which of them is shown.
pub struct Calendar {
    view: Mode,
    month_view: MonthView,
    week_view: WeekView,
}

impl View for Calendar {
    type V = CalendarState;

    closed spec fn view(&self) -> CalendarState {
        CalendarState { mode: self.view, month: self.month_view@, week: self.week_view@ }
    }
}

/// The week grid after it takes `date` from the month grid: re-anchored at
/// `SYNC_HOUR` where the date differs from its selection, else unchanged.
pub open spec fn week_synced(w: WeekState, date: int) -> WeekState {
    if date != w.date {
        WeekState {
            date,
            hour: SYNC_HOUR as int,
            top: date - anchor_offset(date, SYNC_HOUR as int),
            top_hour: hour_before(SYNC_HOUR as int),
            ..w
        }
    } else {
        w
    }
}

/// The week grid may move one hour earlier without leaving the navigable range.
pub open spec fn can_hour_up(w: WeekState) -> bool {
    w.hour == 0 ==> w.date - 1 >= -NAV_LIMIT
}

/// The week grid may move one hour later without leaving the navigable range.
pub open spec fn can_hour_down(w: WeekState) -> bool {
    w.hour == 23 ==> w.date + 1 <= NAV_LIMIT
}

/// A date `n` days from `d` stays in the navigable range.
pub open spec fn can_move(d: int, n: int) -> bool {
    -NAV_LIMIT <= d + n <= NAV_LIMIT
}

impl Calendar {
    /// Both grids are well formed.
    pub closed spec fn wf(&self) -> bool {
        self.month_view.wf() && self.week_view.wf()
    }

    /// A calendar showing the month grid, both grids selecting `date`; the week
    /// grid at `hour`.
    pub fn new(date: Date, hour: u8) -> (r: Calendar)
        requires
            date.navigable(),
            hour < 24,
        ensures
            r.wf(),
            r@.mode == Mode::Month,
            r@.month == (MonthState { date: date@, request: None }),
            r@.week == (WeekState {
                date: date@,
                hour: hour as int,
                top: date@ - anchor_offset(date@, hour as int),
                top_hour: hour_before(hour as int),
                request: None,
            }),
    {
        Calendar {
            view: Mode::Month,
            month_view: MonthView::new(date),
            week_view: WeekView::new(date, hour),
        }
    }

    /// The shown grid.
    pub fn mode(&self) -> (r: Mode)
        ensures
            r == self@.mode,
    {
        self.view
    }

    /// The month grid.
    pub fn month_view(&self) -> (r: &MonthView)
        ensures
            r@ == self@.month,
    {
        &self.month_view
    }

    /// The week grid.
    pub fn week_view(&self) -> (r: &WeekView)
        ensures
            r@ == self@.week,
    {
        &self.week_view
    }

    /// From the month grid to the week grid, which takes the month grid's
    /// date; the week grid stays. Needs no redraw.
    pub fn next_view(&mut self) -> (r: bool)
        requires
            old(self).wf(),
        ensures
            final(self).wf(),
            !r,
            final(self)@.mode == Mode::Week,
            final(self)@.month == old(self)@.month,
            old(self)@.mode == Mode::Month ==> final(self)@.week == week_synced(
                old(self)@.week,
                old(self)@.month.date,
            ),
            old(self)@.mode == Mode::Week ==> final(self)@.week == old(self)@.week,
    {
        match self.view {
            Mode::Month => {
                let d = self.month_view.get_date();
                self.week_view.set_date(d);
                self.view = Mode::Week;
            },
            Mode::Week => {},
        }
        false
    }

    /// From the week grid to the month grid, which takes the week grid's
    /// date; the month grid stays. Needs no redraw.
    pub fn prev_view(&mut self) -> (r: bool)
        requires
            old(self).wf(),
        ensures
            final(self).wf(),
            !r,
            final(self)@.mode == Mode::Month,
            final(self)@.week == old(self)@.week,
            old(self)@.mode == Mode::Week ==> final(self)@.month == (MonthState {
                date: old(self)@.week.date,
                ..old(self)@.month
            }),
            old(self)@.mode == Mode::Month ==> final(self)@.month == old(self)@.month,
    {
        match self.view {
            Mode::Week => {
                let d = self.week_view.get_date();
                self.month_view.set_date(d);
                self.view = Mode::Month;
            },
            Mode::Month => {},
        }
        false
    }

    /// Up in the shown grid: a week earlier in the month grid, an hour earlier
    /// in the week grid. Where that would leave the navigable range nothing
    /// changes. Needs no redraw.
    pub fn up(&mut self) -> (r: bool)
        requires
            old(self).wf(),
        ensures
            final(self).wf(),
            !r,
            final(self)@.mode == old(self)@.mode,
            old(self)@.mode == Mode::Month ==> final(self)@.week == old(self)@.week && final(self)@.month
                == (if can_move(old(self)@.month.date, -7) {
                moved(old(self)@.month, -7)
            } else {
                old(self)@.month
            }),
            old(self)@.mode == Mode::Week ==> final(self)@.month == old(self)@.month && final(self)@.week
                == (if can_hour_up(old(self)@.week) {
                hour_up(old(self)@.week)
            } else {
                old(self)@.week
            }),
    {
        match self.view {
            Mode::Month => {
                if self.month_view.get_date().days() >= -NAV_LIMIT + 7 {
                    self.month_view.up()
                } else {
                    false
                }
            },
            Mode::Week => {
                if self.week_view.selected_hour() != 0 || self.week_view.get_date().days()
                    >= -NAV_LIMIT + 1 {
                    self.week_view.up()
                } else {
                    false
                }
            },
        }
    }

    /// Down in the shown grid: a week later in the month grid, an hour later in
    /// the week grid. Where that would leave the navigable range nothing
    /// changes. Needs no redraw.
    pub fn down(&mut self) -> (r: bool)
        requires
            old(self).wf(),
        ensures
            final(self).wf(),
            !r,
            final(self)@.mode == old(self)@.mode,
            old(self)@.mode == Mode::Month ==> final(self)@.week == old(self)@.week && final(self)@.month
                == (if can_move(old(self)@.month.date, 7) {
                moved(old(self)@.month, 7)
            } else {
                old(self)@.month
            }),
            old(self)@.mode == Mode::Week ==> final(self)@.month == old(self)@.month && final(self)@.week
                == (if can_hour_down(old(self)@.week) {
                hour_down(old(self)@.week)
            } else {
                old(self)@.week
            }),
    {
        match self.view {
            Mode::Month => {
                if self.month_view.get_date().days() <= NAV_LIMIT - 7 {
                    self.month_view.down()
                } else {
                    false
                }
            },
            Mode::Week => {
                if self.week_view.selected_hour() != 23 || self.week_view.get_date().days()
                    <= NAV_LIMIT - 1 {
                    self.week_view.down()
                } else {
                    false
                }
            },
        }
    }

    /// A day later in the shown grid, where that stays in the navigable range.
    /// Needs no redraw.
    pub fn right(&mut self) -> (r: bool)
        requires
            old(self).wf(),
        ensures
            final(self).wf(),
            !r,
            final(self)@.mode == old(self)@.mode,
            old(self)@.mode == Mode::Month ==> final(self)@.week == old(self)@.week && final(self)@.month
                == (if can_move(old(self)@.month.date, 1) {
                moved(old(self)@.month, 1)
            } else {
                old(self)@.month
            }),
            old(self)@.mode == Mode::Week ==> final(self)@.month == old(self)@.month && final(self)@.week
                == (if can_move(old(self)@.week.date, 1) {
                day_moved(old(self)@.week, 1)
            } else {
                old(self)@.week
            }),
    {
        match self.view {
            Mode::Month => {
                if self.month_view.get_date().days() <= NAV_LIMIT - 1 {
                    self.month_view.right()
                } else {
                    false
                }
            },
            Mode::Week => {
                if self.week_view.get_date().days() <= NAV_LIMIT - 1 {
                    self.week_view.right()
                } else {
                    false
                }
            },
        }
    }

    /// A day earlier in the shown grid, where that stays in the navigable range.
    /// Needs no redraw.
    pub fn left(&mut self) -> (r: bool)
        requires
            old(self).wf(),
        ensures
            final(self).wf(),
            !r,
            final(self)@.mode == old(self)@.mode,
            old(self)@.mode == Mode::Month ==> final(self)@.week == old(self)@.week && final(self)@.month
                == (if can_move(old(self)@.month.date, -1) {
                moved(old(self)@.month, -1)
            } else {
                old(self)@.month
            }),
            old(self)@.mode == Mode::Week ==> final(self)@.month == old(self)@.month && final(self)@.week
                == (if can_move(old(self)@.week.date, -1) {
                day_moved(old(self)@.week, -1)
            } else {
                old(self)@.week
            }),
    {
        match self.view {
            Mode::Month => {
                if self.month_view.get_date().days() >= -NAV_LIMIT + 1 {
                    self.month_view.left()
                } else {
                    false
                }
            },
            Mode::Week => {
                if self.week_view.get_date().days() >= -NAV_LIMIT + 1 {
                    self.week_view.left()
                } else {
                    false
                }
            },
        }
    }

    /// Asks for an edit of the selected note of the shown grid: the day in the
    /// month grid, the hour in the week grid. Needs a redraw.
    pub fn enter(&mut self) -> (r: bool)
        requires
            old(self).wf(),
        ensures
            final(self).wf(),
            r,
            final(self)@.mode == old(self)@.mode,
            old(self)@.mode == Mode::Month ==> final(self)@.month == entered(old(self)@.month),
            old(self)@.mode == Mode::Month ==> final(self)@.week == old(self)@.week,
            old(self)@.mode == Mode::Week ==> final(self)@.month == old(self)@.month,
            old(self)@.mode == Mode::Week ==> final(self)@.week == week_entered(old(self)@.week),
    {
        match self.view {
            Mode::Month => self.month_view.enter(),
            Mode::Week => self.week_view.enter(),
        }
    }

    /// Hands out the edit asked for, if any (the month grid's first), and
    /// forgets it.
    pub fn take_request(&mut self) -> (r: Option<NoteKey>)
        requires
            old(self).wf(),
        ensures
            final(self).wf(),
            final(self)@.mode == old(self)@.mode,
            old(self)@.month.request.is_some() ==> r == old(self)@.month.request && final(self)@.month
                == (MonthState { request: None, ..old(self)@.month })
                && final(self)@.week == old(self)@.week,
            old(self)@.month.request.is_none() ==> r == old(self)@.week.request && final(self)@.month
                == old(self)@.month && final(self)@.week == (WeekState {
                request: None,
                ..old(self)@.week
            }),
    {
        let m = self.month_view.take_request();
        match m {
            Some(k) => Some(k),
            None => self.week_view.take_request(),
        }
    }

    /// Lays out the shown grid in a viewport `width` by `height`, with the
    /// notes of `notes`; `today` and the hour `now` are marked. The month grid
    /// needs at least one column and four lines, and is not laid out in less.
    /// The week grid moves its anchor as `WeekView::draw` says.
    pub fn draw(&mut self, notes: &NoteStore, width: u16, height: u16, today: Date, now: u8) -> (r:
        Option<CalendarPlan>)
        requires
            old(self).wf(),
        ensures
            final(self).wf(),
            final(self)@.mode == old(self)@.mode,
            final(self)@.month == old(self)@.month,
            old(self)@.mode == Mode::Month ==> final(self)@.week == old(self)@.week,
            old(self)@.mode == Mode::Month ==> (r.is_none() <==> (width < 1 || height < 4)),
            old(self)@.mode == Mode::Month && width >= 1 && height >= 4 ==> (r matches Some(
                CalendarPlan::Month(_),
            )),
            old(self)@.mode == Mode::Month ==> (r matches Some(CalendarPlan::Month(p)) ==> {
                &&& p.title@ == month_title_of(old(self)@.month.date)
                &&& p.cells@.len() == 42
                &&& forall|k: int|
                    0 <= k < 42 ==> month_cell_is(
                        #[trigger] p.cells@[k],
                        k,
                        old(self)@.month.date,
                        today@,
                        *notes,
                        width as int,
                        height as int,
                    )
            }),
            old(self)@.mode == Mode::Week ==> ({
                let c = ctx_of(old(self)@.week, height as int, today@, now as int);
                let x = relax(*notes, c, old(self)@.week.top, old(self)@.week.top_hour, MAX_PASSES as nat);
                &&& final(self)@.week == WeekState { top: x.top, top_hour: x.top_hour, ..old(self)@.week }
                &&& r matches Some(CalendarPlan::Week(p))
                &&& p.converged == x.converged
                &&& rows_are(p.rows@, x.rows, *notes, c)
            }),
    {
        match self.view {
            Mode::Month => {
                if width < 1 || height < 4 {
                    None
                } else {
                    Some(CalendarPlan::Month(self.month_view.draw(notes, width, height, today)))
                }
            },
            Mode::Week => Some(CalendarPlan::Week(self.week_view.draw(notes, height, today, now))),
        }
    }
}

/// Going from the month grid to the week grid selects the month grid's date
/// at `SYNC_HOUR` in the week grid, whatever the week grid held, where the
/// date differs from the week grid's selection.
pub proof fn lemma_switch_syncs_week(w: WeekState, date: int)
    requires
        date != w.date,
    ensures
        week_synced(w, date).date == date,
        week_synced(w, date).hour == SYNC_HOUR as int,
{
}

} // verus!
