//! The state behind the dashboard, and the lines that it writes.

pub mod app;
pub mod ui;

pub use app::{App, TaskDisplay, TuiAction};
