//! Walks directory trees and keeps the entries that pass a type filter and a
//! name filter.
//!
//! The library holds the logic: building a validated configuration from the
//! values given on the command line, and deciding, for each item that a
//! directory walk yields, what is written and where. Reading the command line
//! and walking the file system are left to the caller, which hands the
//! library plain values.

pub mod entry;
pub mod pattern;
pub mod config;
pub mod filter;

pub use config::{Config, ConfigError};
pub use entry::{Action, EntryInfo, EntryKind, EntryType, WalkEvent};
pub use pattern::NamePattern;
