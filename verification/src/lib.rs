//! Host facts laid out beside an ASCII-art logo.
//!
//! The library turns the answers of a host's system queries into labelled
//! lines, and places those lines to the right of a logo, row by row. What is
//! measured is always the visible text; colour escapes are added afterwards
//! and never counted.
//!
//! - [`facts`] lays the answers out as lines, in a fixed order.
//! - [`format`] writes the two computed values, uptime and memory.
//! - [`line`] is one line: its model, its length, its plain and coloured text.
//! - [`layout`] sets the lines beside the logo.
//! - [`logo`] is the logo.
//! - [`paint`] colours text, and says what colour leaves visible.
//! - [`screen`] goes from the answers to the rows to print.
//! - [`text`] builds runs of a character and decimal numerals.
//!
//! The library asks the host nothing and prints nothing: its caller does both.

pub mod facts;
pub mod format;
pub mod layout;
pub mod line;
pub mod logo;
pub mod paint;
pub mod screen;
pub mod text;
