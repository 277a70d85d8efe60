//! Note text for days and for hours of days, held in memory.
use vstd::prelude::*;
use vstd::string::*;
use std::collections::HashMap;
use crate::date::{Date, year_of, month_of, day_of};
use crate::text::{
    push_decimal, push_signed_decimal, month_name, hour_label, decimal, signed_decimal,
    month_name_of, hour_label_of,
};

verus! {

broadcast use vstd::std_specs::hash::group_hash_axioms;

/// The slot of one note: a whole day, or one hour (0 to 23) of a day.
#[derive(Clone, Copy, Debug, PartialEq, Eq, Structural)]
pub enum NoteKey {
    Day(Date),
    Hour(Date, u8),
}

/// The directories, under the store's root, that hold the notes of day `d`:
/// its year, its month's name, and its day of the month.
pub open spec fn day_dir_of(d: int) -> Seq<Seq<char>> {
    seq![signed_decimal(year_of(d)), month_name_of(month_of(d)), decimal(day_of(d) as nat)]
}

fn day_dir(d: &Date) -> (r: Vec<String>)
    requires
        d.wf(),
    ensures
        r@.map_values(|s: String| s@) == day_dir_of(d@),
{
    let mut year = String::new();
    push_signed_decimal(&mut year, d.year());
    let month = String::from_str(month_name(d.month()));
    let mut day = String::new();
    push_decimal(&mut day, d.day());
    let r = vec![year, month, day];
    assert(r@.map_values(|s: String| s@) =~= day_dir_of(d@));
    r
}

/// The path, as its parts under the store's root, of the file that holds the
/// note of day `d`: the day's directory, then "today.txt".
pub fn day_file(d: &Date) -> (r: Vec<String>)
    requires
        d.wf(),
    ensures
        r@.map_values(|s: String| s@) == day_dir_of(d@).push("today.txt"@),
{
    let mut r = day_dir(d);
    r.push(String::from_str("today.txt"));
    assert(r@.map_values(|s: String| s@) =~= day_dir_of(d@).push("today.txt"@));
    r
}

/// The path, as its parts under the store's root, of the file that holds the
/// note of hour `hour` of day `d`: the day's directory, then the hour's label.
pub fn hour_file(d: &Date, hour: u8) -> (r: Vec<String>)
    requires
        d.wf(),
    ensures
        r@.map_values(|s: String| s@) == day_dir_of(d@).push(hour_label_of(hour as int)),
{
    let mut r = day_dir(d);
    r.push(hour_label(hour));
    assert(r@.map_values(|s: String| s@) =~= day_dir_of(d@).push(hour_label_of(hour as int)));
    r
}

/// The key of hour `h` (0 to 23) of day `d` in the hour notes.
pub open spec fn hour_key(d: int, h: int) -> int {
    d * 24 + h
}

/// Notes keyed by day and by (day, hour); a missing note reads as empty text.
pub struct NoteStore {
    days: HashMap<i32, String>,
    hours: HashMap<i64, String>,
}

impl NoteStore {
    /// The note of day `d`.
    pub closed spec fn day_note(&self, d: int) -> Seq<char> {
        if i32::MIN <= d <= i32::MAX && self.days@.contains_key(d as i32) {
            self.days@[d as i32]@
        } else {
            Seq::empty()
        }
    }

    /// The note of hour `h` of day `d`.
    pub closed spec fn hour_note(&self, d: int, h: int) -> Seq<char> {
        if i32::MIN <= d <= i32::MAX && 0 <= h < 24 && self.hours@.contains_key(
            hour_key(d, h) as i64,
        ) {
            self.hours@[hour_key(d, h) as i64]@
        } else {
            Seq::empty()
        }
    }

    /// A store in which every note is empty.
    pub fn new() -> (r: NoteStore)
        ensures
            forall|d: int| (#[trigger] r.day_note(d)).len() == 0,
            forall|d: int, h: int| (#[trigger] r.hour_note(d, h)).len() == 0,
    {
        NoteStore { days: HashMap::new(), hours: HashMap::new() }
    }

    /// The note of a day.
    pub fn get_day(&self, d: Date) -> (r: String)
        ensures
            r@ == self.day_note(d@),
    {
        match self.days.get(&d.days) {
            Some(text) => text.clone(),
            None => String::new(),
        }
    }

    /// The note of an hour of a day.
    pub fn get_hour(&self, d: Date, hour: u8) -> (r: String)
        requires
            hour < 24,
        ensures
            r@ == self.hour_note(d@, hour as int),
    {
        let key: i64 = d.days as i64 * 24 + hour as i64;
        match self.hours.get(&key) {
            Some(text) => text.clone(),
            None => String::new(),
        }
    }

    /// Sets the note of a day; every other note stays as it was.
    pub fn set_day(&mut self, d: Date, text: String)
        ensures
            final(self).day_note(d@) == text@,
            forall|e: int| e != d@ ==> #[trigger] final(self).day_note(e) == old(self).day_note(e),
            forall|e: int, h: int| #[trigger] final(self).hour_note(e, h) == old(self).hour_note(e, h),
    {
        self.days.insert(d.days, text);
    }

    /// Sets the note of an hour of a day; every other note stays as it was.
    pub fn set_hour(&mut self, d: Date, hour: u8, text: String)
        requires
            hour < 24,
        ensures
            final(self).hour_note(d@, hour as int) == text@,
            forall|e: int, h: int| (e, h) != (d@, hour as int) ==> #[trigger] final(self).hour_note(e, h)
                == old(self).hour_note(e, h),
            forall|e: int| #[trigger] final(self).day_note(e) == old(self).day_note(e),
    {
        let key: i64 = d.days as i64 * 24 + hour as i64;
        self.hours.insert(key, text);
    }
}

} // verus!
