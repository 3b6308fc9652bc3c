//! Tracks a current directory with one level of back-navigation, and turns a
//! directory's listing into lines or a table.
pub mod entry;
pub mod error;
pub mod navigator;
pub mod table;
