//! A terminal calendar's view engine: month and week grids over a note store,
//! with navigation, cross-view synchronisation and a self-correcting week scroll.
pub mod date;
pub mod text;
pub mod notes;
pub mod week;
pub mod style;
pub mod month;
pub mod calendar;
