//! A small daily-standup logger: collect short lists of "done" and "to-do"
//! lines, format them into a tagged status report with a day-counter, and
//! hand the report to a chat webhook.

pub mod collector;
pub mod config;
pub mod notify;
pub mod report;
pub mod stardate;
pub mod text;
