//! Daily activity scanner for a folder of timestamped screen captures.
//!
//! A capture tool writes one image per interval into a directory named after
//! the day. This library counts how many distinct minutes are represented in
//! today's directory, how many captures are suspiciously small ("blank"), and
//! renders the outcome as the text of a desktop notification.

pub mod error;
pub mod text;
pub mod config;
pub mod listing;
pub mod tray;
pub mod scanner;
pub mod locator;
pub mod duration;
pub mod notify;
pub mod settings;
