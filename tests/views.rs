use callus::calendar::{Calendar, CalendarPlan, Mode};
use callus::date::Date;
use callus::month::{header_x, MonthView};
use callus::notes::{NoteKey, NoteStore};
use callus::style::Color;
use callus::text::{day_caption, day_label, day_suffix, hour_label, line_count, month_title, shown_lines};
use callus::week::{caption_x, column_span, WeekPlan, WeekView};

fn ymd(y: i32, m: u32, d: u32) -> Date {
    Date::from_ymd(y, m, d).unwrap()
}

#[test]
fn day_suffix_scenario() {
    assert_eq!(day_suffix(1), "st");
    assert_eq!(day_suffix(2), "nd");
    assert_eq!(day_suffix(3), "rd");
    assert_eq!(day_suffix(11), "th");
    assert_eq!(day_suffix(21), "st");
    assert_eq!(day_suffix(12), "th");
    assert_eq!(day_suffix(13), "th");
    assert_eq!(day_suffix(22), "nd");
    assert_eq!(day_suffix(23), "rd");
    assert_eq!(day_suffix(4), "th");
    assert_eq!(day_suffix(111), "th");
    assert_eq!(day_suffix(101), "st");
}

#[test]
fn dates_read_back_through_chrono() {
    let d = ymd(2024, 3, 15);
    assert_eq!(d.year(), 2024);
    assert_eq!(d.month(), 3);
    assert_eq!(d.day(), 15);
    assert_eq!(d.weekday(), 4);
    assert_eq!(ymd(1970, 1, 1).days(), 719_163);
    assert_eq!(ymd(1, 1, 1).weekday(), 0);
    let next = d.add_days(17);
    assert_eq!((next.year(), next.month(), next.day()), (2024, 4, 1));
    let back = d.add_days(-75);
    assert_eq!((back.year(), back.month(), back.day()), (2023, 12, 31));
    assert!(Date::from_ymd(2023, 2, 29).is_none());
    assert!(Date::from_ymd(2024, 13, 1).is_none());
    assert!(Date::from_days(95_000_000).is_none());
    assert_eq!(Date::from_days(-5).unwrap().days(), -5);
}

#[test]
fn text_pieces() {
    let d = ymd(2024, 3, 15);
    assert_eq!(month_title(&d), "Mar 2024");
    assert_eq!(day_caption(&d), "Fri 15th Mar 2024");
    assert_eq!(day_caption(&ymd(2023, 12, 2)), "Sat 2nd Dec 2023");
    assert_eq!(day_label(&d, true), "15");
    assert_eq!(day_label(&ymd(2024, 4, 1), false), "1 Apr");
    assert_eq!(hour_label(0), "0AM");
    assert_eq!(hour_label(11), "11AM");
    assert_eq!(hour_label(12), "12PM");
    assert_eq!(hour_label(23), "23PM");
    assert_eq!(month_title(&ymd(-44, 3, 15)), "Mar -44");
}

#[test]
fn line_counts() {
    assert_eq!(line_count(""), 0);
    assert_eq!(line_count("a"), 1);
    assert_eq!(line_count("a\n"), 1);
    assert_eq!(line_count("a\nb"), 2);
    assert_eq!(line_count("\n"), 1);
    assert_eq!(line_count("a\n\n"), 2);
    assert_eq!(line_count("é\r\nü"), 2);
}

#[test]
fn note_store_reads_back() {
    let mut n = NoteStore::new();
    let d = ymd(2024, 3, 15);
    assert_eq!(n.get_day(d), "");
    n.set_day(d, "party".to_string());
    n.set_hour(d, 9, "standup".to_string());
    n.set_hour(d, 9, "retro".to_string());
    assert_eq!(n.get_day(d), "party");
    assert_eq!(n.get_hour(d, 9), "retro");
    assert_eq!(n.get_hour(d, 10), "");
    assert_eq!(n.get_day(d.add_days(1)), "");
}

#[test]
fn week_anchor_at_midnight_scenario() {
    let w = WeekView::new(ymd(2024, 3, 15), 0);
    assert_eq!(w.top_left_date(), ymd(2024, 3, 12));
    assert_eq!(w.top_hour(), 23);
    assert_eq!(w.get_date(), ymd(2024, 3, 15));
    assert_eq!(w.selected_hour(), 0);
}

#[test]
fn week_anchor_clamps_weekday() {
    // Sunday: weekday 6, brought down to 5.
    let w = WeekView::new(ymd(2024, 3, 17), 10);
    assert_eq!(w.top_left_date(), ymd(2024, 3, 12));
    assert_eq!(w.top_hour(), 9);
    // Monday: weekday 0, brought up to 1.
    let w = WeekView::new(ymd(2024, 3, 11), 10);
    assert_eq!(w.top_left_date(), ymd(2024, 3, 10));
}

#[test]
fn week_hour_rollover() {
    let mut w = WeekView::new(ymd(2024, 3, 15), 0);
    assert!(!w.up());
    assert_eq!((w.get_date(), w.selected_hour()), (ymd(2024, 3, 14), 23));
    assert!(!w.down());
    assert_eq!((w.get_date(), w.selected_hour()), (ymd(2024, 3, 15), 0));
    let mut w = WeekView::new(ymd(2024, 3, 15), 23);
    assert!(!w.down());
    assert_eq!((w.get_date(), w.selected_hour()), (ymd(2024, 3, 16), 0));
    assert!(!w.up());
    assert_eq!((w.get_date(), w.selected_hour()), (ymd(2024, 3, 15), 23));
    assert!(!w.left());
    assert_eq!((w.get_date(), w.selected_hour()), (ymd(2024, 3, 14), 23));
    assert!(!w.right());
    assert_eq!((w.get_date(), w.selected_hour()), (ymd(2024, 3, 15), 23));
}

#[test]
fn week_enter_asks_for_hour_edit() {
    let mut w = WeekView::new(ymd(2024, 3, 15), 7);
    assert!(w.enter());
    assert_eq!(w.take_request(), Some(NoteKey::Hour(ymd(2024, 3, 15), 7)));
    assert_eq!(w.take_request(), None);
}

#[test]
fn week_set_date_syncs_only_on_change() {
    let mut w = WeekView::new(ymd(2024, 3, 15), 20);
    w.set_date(ymd(2024, 3, 15));
    assert_eq!(w.selected_hour(), 20);
    w.set_date(ymd(2024, 3, 20));
    assert_eq!(w.get_date(), ymd(2024, 3, 20));
    assert_eq!(w.selected_hour(), 11);
    assert_eq!(w.top_left_date(), ymd(2024, 3, 18));
    assert_eq!(w.top_hour(), 10);
}

fn selected_place(plan: &WeekPlan) -> Option<(usize, usize)> {
    for (j, row) in plan.rows.iter().enumerate() {
        for (i, cell) in row.cells.iter().enumerate() {
            if cell.selected {
                return Some((j, i));
            }
        }
    }
    None
}

#[test]
fn week_layout_settles_clear_of_edges() {
    let notes = NoteStore::new();
    let mut w = WeekView::new(ymd(2024, 3, 15), 10);
    let plan = w.draw(&notes, 40, ymd(2024, 3, 15), 10);
    assert!(plan.converged);
    assert_eq!(plan.rows[0].y, 0);
    assert!(plan.rows[0].show_date);
    assert_eq!(plan.rows[0].hour, 9);
    assert_eq!(plan.rows[0].height, 3);
    assert_eq!(plan.rows[1].y, 4);
    let (j, i) = selected_place(&plan).unwrap();
    assert_eq!((j, i), (1, 4));
    assert!(plan.rows[1].cells[4].today);
    assert_eq!(plan.rows[1].cells[4].date, ymd(2024, 3, 15));
    assert_eq!(plan.rows[1].cells.len(), 7);
    // Rows fill the viewport without running past it.
    let last = plan.rows.last().unwrap();
    assert!(last.y + last.height <= 41);
}

#[test]
fn week_layout_moves_anchor_left_and_right() {
    let notes = NoteStore::new();
    let mut w = WeekView::new(ymd(2024, 3, 15), 10);
    for _ in 0..4 {
        w.left();
    }
    let plan = w.draw(&notes, 40, ymd(2000, 1, 1), 0);
    assert!(plan.converged);
    assert_eq!(w.top_left_date(), ymd(2024, 3, 10));
    assert_eq!(selected_place(&plan).unwrap().1, 1);
    let mut plan = w.draw(&notes, 40, ymd(2000, 1, 1), 0);
    for _ in 0..6 {
        w.right();
        plan = w.draw(&notes, 40, ymd(2000, 1, 1), 0);
    }
    assert!(plan.converged);
    assert_eq!(w.top_left_date(), ymd(2024, 3, 12));
    assert_eq!(selected_place(&plan).unwrap().1, 5);
}

#[test]
fn week_layout_scrolls_down_then_up() {
    let notes = NoteStore::new();
    let mut w = WeekView::new(ymd(2024, 3, 15), 10);
    let mut plan = w.draw(&notes, 20, ymd(2000, 1, 1), 0);
    for _ in 0..20 {
        w.down();
        plan = w.draw(&notes, 20, ymd(2000, 1, 1), 0);
        assert!(plan.converged);
        assert!(selected_place(&plan).is_some());
    }
    assert!(plan.converged);
    let (j, _) = selected_place(&plan).unwrap();
    let row = &plan.rows[j];
    let top = row.y + if row.show_date { 1 } else { 0 };
    assert!(top > 1);
    assert!(top + row.height + 2 < 20);
    for _ in 0..20 {
        w.up();
        plan = w.draw(&notes, 20, ymd(2000, 1, 1), 0);
        assert!(selected_place(&plan).is_some());
    }
    assert!(plan.converged);
    let (j, _) = selected_place(&plan).unwrap();
    let row = &plan.rows[j];
    assert!(row.y + if row.show_date { 1 } else { 0 } > 1);
}

#[test]
fn week_layout_tall_notes_grow_rows() {
    let mut notes = NoteStore::new();
    let d = ymd(2024, 3, 12);
    notes.set_hour(d, 9, "a\nb\nc\nd\ne".to_string());
    let mut w = WeekView::new(ymd(2024, 3, 15), 10);
    let plan = w.draw(&notes, 40, ymd(2000, 1, 1), 0);
    assert!(plan.converged);
    assert_eq!(plan.rows[0].height, 5);
    assert_eq!(plan.rows[0].cells[1].summary, "a\nb\nc\nd\ne");
}

#[test]
fn week_layout_gives_up_in_a_tiny_viewport() {
    let notes = NoteStore::new();
    let mut w = WeekView::new(ymd(2024, 3, 15), 10);
    let plan = w.draw(&notes, 3, ymd(2000, 1, 1), 0);
    assert!(!plan.converged);
}

#[test]
fn week_layout_twice_is_identical() {
    let mut notes = NoteStore::new();
    notes.set_hour(ymd(2024, 3, 14), 11, "x\ny".to_string());
    let mut w = WeekView::new(ymd(2024, 3, 15), 10);
    for _ in 0..3 {
        w.left();
    }
    let a = w.draw(&notes, 30, ymd(2024, 3, 12), 10);
    let anchor = (w.top_left_date(), w.top_hour());
    let b = w.draw(&notes, 30, ymd(2024, 3, 12), 10);
    assert_eq!(anchor, (w.top_left_date(), w.top_hour()));
    assert!(a.converged && b.converged);
    assert_eq!(a.rows.len(), b.rows.len());
    for (ra, rb) in a.rows.iter().zip(b.rows.iter()) {
        assert_eq!((ra.show_date, ra.y, ra.hour, ra.height), (rb.show_date, rb.y, rb.hour, rb.height));
        for (ca, cb) in ra.cells.iter().zip(rb.cells.iter()) {
            assert_eq!((ca.date, &ca.summary, ca.selected, ca.today), (cb.date, &cb.summary, cb.selected, cb.today));
        }
    }
}

#[test]
fn week_columns() {
    assert_eq!(column_span(69, 0), (0, 10));
    assert_eq!(column_span(69, 1), (10, 10));
    assert_eq!(column_span(69, 6), (60, 9));
    assert_eq!(column_span(0, 6), (0, 0));
    assert_eq!(caption_x(140, 3, 17), 63);
    assert_eq!(caption_x(70, 0, 17), 0);
    assert_eq!(caption_x(10, 0, 17), 0);
}

#[test]
fn month_grid_origin_is_monday_covering_date() {
    for (y, m, d) in [(2024, 3, 15), (2024, 3, 1), (2024, 9, 30), (2023, 10, 31), (2024, 4, 1)] {
        let v = MonthView::new(ymd(y, m, d));
        let o = v.grid_origin();
        assert_eq!(o.weekday(), 0);
        assert!(o.days() <= v.get_date().days());
        assert!(v.get_date().days() < o.days() + 42);
    }
    assert_eq!(MonthView::new(ymd(2024, 3, 15)).grid_origin(), ymd(2024, 2, 26));
    assert_eq!(MonthView::new(ymd(2024, 4, 1)).grid_origin(), ymd(2024, 4, 1));
}

#[test]
fn month_navigation_and_enter_then_up() {
    let mut v = MonthView::new(ymd(2024, 3, 15));
    assert!(!v.down());
    assert_eq!(v.get_date(), ymd(2024, 3, 22));
    assert!(!v.right());
    assert_eq!(v.get_date(), ymd(2024, 3, 23));
    assert!(!v.left());
    assert!(v.enter());
    assert_eq!(v.get_date(), ymd(2024, 3, 22));
    assert!(!v.up());
    assert_eq!(v.get_date(), ymd(2024, 3, 15));
    assert_eq!(v.take_request(), Some(NoteKey::Day(ymd(2024, 3, 22))));
    assert_eq!(v.take_request(), None);
    v.set_date(ymd(2025, 1, 1));
    assert_eq!(v.get_date(), ymd(2025, 1, 1));
}

#[test]
fn month_layout_cells() {
    let mut notes = NoteStore::new();
    let d = ymd(2024, 3, 15);
    notes.set_day(d, "day\n".to_string());
    notes.set_hour(d, 3, "three\n".to_string());
    notes.set_hour(d, 1, "one\n".to_string());
    let v = MonthView::new(d);
    let plan = v.draw(&notes, 71, 40, ymd(2024, 3, 14));
    assert_eq!(plan.title, "Mar 2024");
    assert_eq!(plan.cells.len(), 42);
    let first = &plan.cells[0];
    assert_eq!(first.date, ymd(2024, 2, 26));
    assert_eq!(first.label, "26 Feb");
    assert!(!first.in_month);
    assert_eq!(first.label_style.fg, Some(Color::Red));
    assert!(!first.label_style.bold);
    assert_eq!((first.x, first.y, first.width, first.height), (0, 3, 11, 7));
    assert_eq!(first.max_lines, 4);
    let sel = &plan.cells[18];
    assert_eq!(sel.date, d);
    assert!(sel.selected);
    assert_eq!(sel.label, "15");
    assert_eq!(sel.text, "day\none\nthree\n");
    assert_eq!(sel.label_style.fg, Some(Color::Black));
    assert_eq!(sel.label_style.bg, Some(Color::Red));
    assert_eq!(sel.text_style.fg, Some(Color::Black));
    assert_eq!((sel.x, sel.y), (40, 15));
    let today = &plan.cells[17];
    assert!(today.today);
    assert_eq!(today.label_style.fg, Some(Color::Yellow));
    assert!(today.label_style.bold);
    let last = &plan.cells[41];
    assert_eq!(last.date, ymd(2024, 4, 7));
    assert_eq!((last.x, last.width), (60, 11));
    assert_eq!(header_x(71, 0), 6);
    assert_eq!(header_x(71, 6), 66);
}

#[test]
fn calendar_switch_syncs_week_view() {
    let mut c = Calendar::new(ymd(2024, 3, 15), 20);
    assert_eq!(c.mode(), Mode::Month);
    c.right();
    assert!(!c.next_view());
    assert_eq!(c.mode(), Mode::Week);
    assert_eq!(c.week_view().get_date(), ymd(2024, 3, 16));
    assert_eq!(c.week_view().selected_hour(), 11);
    c.down();
    assert_eq!(c.week_view().selected_hour(), 12);
    assert!(!c.prev_view());
    assert_eq!(c.mode(), Mode::Month);
    assert_eq!(c.month_view().get_date(), ymd(2024, 3, 16));
    // Same date: the week view keeps its hour.
    c.next_view();
    assert_eq!(c.week_view().selected_hour(), 12);
}

#[test]
fn calendar_dispatches_to_shown_view() {
    let mut c = Calendar::new(ymd(2024, 3, 15), 5);
    c.up();
    assert_eq!(c.month_view().get_date(), ymd(2024, 3, 8));
    assert_eq!(c.week_view().get_date(), ymd(2024, 3, 15));
    assert!(c.enter());
    assert_eq!(c.take_request(), Some(NoteKey::Day(ymd(2024, 3, 8))));
    c.next_view();
    c.left();
    assert_eq!(c.week_view().get_date(), ymd(2024, 3, 7));
    c.up();
    assert_eq!(c.week_view().selected_hour(), 10);
    assert!(c.enter());
    assert_eq!(c.take_request(), Some(NoteKey::Hour(ymd(2024, 3, 7), 10)));
    assert_eq!(c.take_request(), None);
    match c.draw(&NoteStore::new(), 50, 30, ymd(2024, 3, 7), 10) {
        Some(CalendarPlan::Week(plan)) => assert!(plan.converged),
        _ => panic!("the week grid is shown"),
    }
    c.prev_view();
    match c.draw(&NoteStore::new(), 50, 30, ymd(2024, 3, 7), 10) {
        Some(CalendarPlan::Month(plan)) => assert_eq!(plan.cells.len(), 42),
        _ => panic!("the month grid is shown"),
    }
    assert!(c.draw(&NoteStore::new(), 50, 3, ymd(2024, 3, 7), 10).is_none());
}

#[test]
fn calendar_stops_at_range_edge() {
    let edge = Date::from_days(80_000_000).unwrap();
    let mut c = Calendar::new(edge, 23);
    c.right();
    assert_eq!(c.month_view().get_date(), edge);
    c.down();
    assert_eq!(c.month_view().get_date(), edge);
    c.next_view();
    c.down();
    assert_eq!((c.week_view().get_date(), c.week_view().selected_hour()), (edge, 23));
}

#[test]
fn note_file_paths() {
    let d = ymd(2024, 3, 15);
    assert_eq!(callus::notes::day_file(&d), vec!["2024", "Mar", "15", "today.txt"]);
    assert_eq!(callus::notes::hour_file(&d, 9), vec!["2024", "Mar", "15", "9AM"]);
    assert_eq!(callus::notes::hour_file(&d, 13), vec!["2024", "Mar", "15", "13PM"]);
}

#[test]
fn selected_today_is_black_on_red() {
    let d = ymd(2024, 3, 15);
    let v = MonthView::new(d);
    let plan = v.draw(&NoteStore::new(), 71, 40, d);
    let sel = &plan.cells[18];
    assert!(sel.selected && sel.today);
    assert_eq!(sel.label_style.fg, Some(Color::Black));
    assert_eq!(sel.label_style.bg, Some(Color::Red));
    assert_eq!(sel.text_style.fg, Some(Color::Black));
    assert_eq!(sel.frame_style.bg, Some(Color::Red));
    let other = &plan.cells[19];
    assert_eq!(other.label_style.bg, None);
    assert_eq!(other.text_style.fg, None);

    let mut w = WeekView::new(d, 10);
    let plan = w.draw(&NoteStore::new(), 40, d, 10);
    let cell = &plan.rows[1].cells[4];
    assert!(cell.selected && cell.today);
    assert_eq!(cell.label_style.fg, Some(Color::Black));
    assert_eq!(cell.label_style.bg, Some(Color::Red));
    assert_eq!(cell.text_style.fg, Some(Color::Black));
    let now_only = WeekView::new(d, 10).draw(&NoteStore::new(), 40, d.add_days(-1), 10);
    let cell = &now_only.rows[1].cells[3];
    assert!(cell.today && !cell.selected);
    assert_eq!(cell.label_style.fg, Some(Color::Yellow));
    assert_eq!(cell.label_style.bg, None);
    let plain = &now_only.rows[1].cells[2];
    assert_eq!((plain.label_style.fg, plain.frame_style.bg), (None, None));
}

#[test]
fn shown_lines_cut_and_drop() {
    assert_eq!(shown_lines("", 3, 5), Vec::<String>::new());
    assert_eq!(shown_lines("abcdefgh\nij\r\nk\nl", 3, 5), vec!["abcde", "ij", "k"]);
    assert_eq!(shown_lines("a\n\nb\n", 9, 5), vec!["a", "", "b"]);
    assert_eq!(shown_lines("a\rb", 9, 5), vec!["a\rb"]);
    assert_eq!(shown_lines("éüö\nx", 1, 2), vec!["éü"]);
    assert_eq!(shown_lines("abc", 0, 2), Vec::<String>::new());
}

#[test]
fn month_cell_shows_fitting_lines() {
    let mut notes = NoteStore::new();
    let d = ymd(2024, 3, 15);
    notes.set_day(d, "first line is long\n".to_string());
    for h in 0..6 {
        notes.set_hour(d, h, format!("h{}\n", h));
    }
    let plan = MonthView::new(d).draw(&notes, 71, 40, d);
    let sel = &plan.cells[18];
    assert_eq!(sel.max_lines, 4);
    assert_eq!(sel.width, 11);
    assert_eq!(sel.lines, vec!["first line", "h0", "h1", "h2"]);
}
