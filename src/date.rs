//! Calendar days as day numbers, and the small pieces of text built from them.
use vstd::prelude::*;
use vstd::string::*;
use chrono::Datelike;

verus! {

/// Largest distance, in days, of a `Date` from day 0.
pub const DATE_LIMIT: i32 = 90_000_000;

/// Largest distance, in days, of a selected date from day 0; the margin to
/// `DATE_LIMIT` leaves room for the days a layout shows around a selection.
pub const NAV_LIMIT: i32 = 80_000_000;

/// Year of a day number, as chrono's calendar counts it.
pub uninterp spec fn year_of(days: int) -> int;

/// Month (1 to 12) of a day number, as chrono's calendar counts it.
pub uninterp spec fn month_of(days: int) -> int;

/// Day of the month (1 to 31) of a day number, as chrono's calendar counts it.
pub uninterp spec fn day_of(days: int) -> int;

/// Day number of a year, month and day, or `None` where chrono knows no such date.
pub uninterp spec fn days_of_ymd(year: int, month: int, day: int) -> Option<int>;

/// Relies on chrono's `NaiveDate::from_ymd_opt` and `Datelike::num_days_from_ce`:
/// the day number of a calendar date, whose year, month and day read back unchanged.
#[verifier::external_body]
fn chrono_days_of_ymd(year: i32, month: u32, day: u32) -> (r: Option<i32>)
    ensures
        r.is_some() ==> days_of_ymd(year as int, month as int, day as int) == Some(r->0 as int),
        r.is_none() ==> days_of_ymd(year as int, month as int, day as int).is_none(),
        r matches Some(n) ==> year_of(n as int) == year as int && month_of(n as int)
            == month as int && day_of(n as int) == day as int,
{
    match chrono::NaiveDate::from_ymd_opt(year, month, day) {
        Some(d) => Some(d.num_days_from_ce()),
        None => None,
    }
}

/// Relies on chrono's `NaiveDate::from_num_days_from_ce_opt` (defined on every day
/// number within about 95 million days of day 0) and `Datelike::year`.
#[verifier::external_body]
fn chrono_year(days: i32) -> (r: i32)
    requires
        -DATE_LIMIT <= days <= DATE_LIMIT,
    ensures
        r as int == year_of(days as int),
{
    chrono::NaiveDate::from_num_days_from_ce_opt(days).unwrap().year()
}

/// Relies on chrono's `NaiveDate::from_num_days_from_ce_opt` and `Datelike::month`,
/// which is documented to range from 1 to 12.
#[verifier::external_body]
fn chrono_month(days: i32) -> (r: u32)
    requires
        -DATE_LIMIT <= days <= DATE_LIMIT,
    ensures
        r as int == month_of(days as int),
        1 <= r <= 12,
{
    chrono::NaiveDate::from_num_days_from_ce_opt(days).unwrap().month()
}

/// Relies on chrono's `NaiveDate::from_num_days_from_ce_opt` and `Datelike::day`,
/// which is documented to range from 1 to 31.
#[verifier::external_body]
fn chrono_day(days: i32) -> (r: u32)
    requires
        -DATE_LIMIT <= days <= DATE_LIMIT,
    ensures
        r as int == day_of(days as int),
        1 <= r <= 31,
{
    chrono::NaiveDate::from_num_days_from_ce_opt(days).unwrap().day()
}

/// Weekday of a day number, counted from Monday = 0; day 1 (January 1 of year 1)
/// is a Monday in the proleptic Gregorian calendar.
pub open spec fn weekday_of(days: int) -> int {
    (days - 1) % 7
}

/// A calendar day, held as its day number: January 1 of year 1 is day 1.
#[derive(Clone, Copy, Debug, PartialEq, Eq, Structural)]
pub struct Date {
    pub days: i32,
}

impl View for Date {
    type V = int;

    open spec fn view(&self) -> int {
        self.days as int
    }
}

impl Date {
    /// The day number lies in the range that the calendar arithmetic covers.
    pub open spec fn wf(self) -> bool {
        -DATE_LIMIT <= self.days <= DATE_LIMIT
    }

    /// The day number lies in the range in which a selection may move.
    pub open spec fn navigable(self) -> bool {
        -NAV_LIMIT <= self.days <= NAV_LIMIT
    }

    /// The date with the given day number, where it lies in range.
    pub fn from_days(days: i32) -> (r: Option<Date>)
        ensures
            r matches Some(d) ==> d@ == days as int && d.wf(),
            r.is_some() <==> -DATE_LIMIT <= days <= DATE_LIMIT,
    {
        if -DATE_LIMIT <= days && days <= DATE_LIMIT {
            Some(Date { days })
        } else {
            None
        }
    }

    /// The date of a year, month (1 to 12) and day of the month, where the
    /// calendar has it and it lies in range.
    pub fn from_ymd(year: i32, month: u32, day: u32) -> (r: Option<Date>)
        ensures
            r matches Some(d) ==> d.wf() && days_of_ymd(year as int, month as int, day as int)
                == Some(d@) && year_of(d@) == year as int && month_of(d@) == month as int
                && day_of(d@) == day as int,
            r.is_none() <==> match days_of_ymd(year as int, month as int, day as int) {
                Some(n) => !(-DATE_LIMIT <= n <= DATE_LIMIT),
                None => true,
            },
    {
        match chrono_days_of_ymd(year, month, day) {
            Some(n) => Date::from_days(n),
            None => None,
        }
    }

    /// The day number.
    pub fn days(&self) -> (r: i32)
        ensures
            r as int == self@,
    {
        self.days
    }

    /// The date `n` days later (earlier where `n` is negative).
    pub fn add_days(&self, n: i32) -> (r: Date)
        requires
            -DATE_LIMIT <= self@ + n <= DATE_LIMIT,
        ensures
            r@ == self@ + n,
            r.wf(),
    {
        Date { days: self.days + n }
    }

    /// The year.
    pub fn year(&self) -> (r: i32)
        requires
            self.wf(),
        ensures
            r as int == year_of(self@),
    {
        chrono_year(self.days)
    }

    /// The month, from 1 to 12.
    pub fn month(&self) -> (r: u32)
        requires
            self.wf(),
        ensures
            r as int == month_of(self@),
            1 <= r <= 12,
    {
        chrono_month(self.days)
    }

    /// The day of the month, from 1 to 31.
    pub fn day(&self) -> (r: u32)
        requires
            self.wf(),
        ensures
            r as int == day_of(self@),
            1 <= r <= 31,
    {
        chrono_day(self.days)
    }

    /// The weekday, counted from Monday = 0.
    pub fn weekday(&self) -> (r: u32)
        requires
            self.wf(),
        ensures
            r as int == weekday_of(self@),
            r < 7,
    {
        let n: i64 = self.days as i64 - 1 + 7 * 20_000_000;
        let r = (n % 7) as u32;
        assert(r as int == weekday_of(self@)) by {
            vstd::arithmetic::div_mod::lemma_mod_add_multiples_vanish(self@ - 1, 7);
            assert((self@ - 1 + 7 * 20_000_000) % 7 == (self@ - 1) % 7) by {
                vstd::arithmetic::div_mod::lemma_mod_multiples_vanish(20_000_000, self@ - 1, 7);
            }
        }
        r
    }
}

} // verus!
