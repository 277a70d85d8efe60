//! The colours and emphasis of grid cells.
use vstd::prelude::*;

verus! {

/// The colours the grids use.
#[derive(Clone, Copy, Debug, PartialEq, Eq, Structural)]
pub enum Color {
    Black,
    Red,
    Yellow,
}

/// Foreground, background and boldness; `None` keeps the terminal's default.
#[derive(Clone, Copy, Debug, PartialEq, Eq, Structural)]
pub struct Style {
    pub fg: Option<Color>,
    pub bg: Option<Color>,
    pub bold: bool,
}

/// Foreground of a cell's label: black on the selection, yellow for the
/// current day (or hour) where it is not selected, red for a day outside the
/// shown month, default otherwise.
pub open spec fn label_fg(selected: bool, today: bool, in_month: bool) -> Option<Color> {
    if selected {
        Some(Color::Black)
    } else if today {
        Some(Color::Yellow)
    } else if in_month {
        None
    } else {
        Some(Color::Red)
    }
}

/// Background of a selected cell: red.
pub open spec fn cell_bg(selected: bool) -> Option<Color> {
    if selected {
        Some(Color::Red)
    } else {
        None
    }
}

/// The style of a cell's label; days of the shown month are bold.
pub fn label_style(selected: bool, today: bool, in_month: bool, bold: bool) -> (r: Style)
    ensures
        r.fg == label_fg(selected, today, in_month),
        r.bg == cell_bg(selected),
        r.bold == bold,
{
    let fg = if selected {
        Some(Color::Black)
    } else if today {
        Some(Color::Yellow)
    } else if in_month {
        None
    } else {
        Some(Color::Red)
    };
    Style { fg, bg: if selected { Some(Color::Red) } else { None }, bold }
}

/// The style of a cell's frame: only the selection's red background.
pub fn frame_style(selected: bool) -> (r: Style)
    ensures
        r.fg.is_none(),
        r.bg == cell_bg(selected),
        !r.bold,
{
    Style { fg: None, bg: if selected { Some(Color::Red) } else { None }, bold: false }
}

/// The style of a cell's note text: black on red for the selection.
pub fn text_style(selected: bool) -> (r: Style)
    ensures
        r.fg == (if selected { Some(Color::Black) } else { None }),
        r.bg == cell_bg(selected),
        !r.bold,
{
    if selected {
        Style { fg: Some(Color::Black), bg: Some(Color::Red), bold: false }
    } else {
        Style { fg: None, bg: None, bold: false }
    }
}

} // verus!
