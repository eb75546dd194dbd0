//! Daylight statistics for a status bar: compact renderings of time spans,
//! the shortest and longest day of the coming year, and a block-character
//! bar showing where today's day length sits between the two.

pub mod bar;
pub mod calendar;
pub mod duration;
pub mod render;
pub mod sun;
pub mod text;
pub mod year;

pub use bar::{pct_progress_bar, Fraction};
pub use calendar::Day;
pub use duration::Duration;
pub use render::{fmt_hr_min, fmt_min_sec};
pub use sun::{pct_year_progress, scan_window, sunrise_sunset, DaySample, ScanError};
pub use year::{year_stats, YearStats};
