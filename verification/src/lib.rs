//! MyTime: the verified core of a desktop time tracker.
//!
//! The library holds the tracker's model (calendar dates, time entries, forms),
//! the rules that validate and normalise what the user types, the date ranges
//! that the day, week, month and year views query, the aggregation of
//! statistics, the text that the interface shows, and the state machine that
//! decides what each user action does. Storage, windows and the clock are
//! driven from outside through plain values.

pub mod actions;
pub mod app_state;
pub mod calendar;
pub mod clock;
pub mod formatting;
pub mod i18n;
pub mod laws;
pub mod model;
pub mod sample;
pub mod stats;
pub mod text;
