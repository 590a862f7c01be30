//! Core logic of a timestamped file/directory backup tool.
//!
//! The library decides, from the filesystem kinds of a source and a target
//! path, which backup shape applies; it builds the timestamped artifact name
//! `<name>.<YYYY-MM-DD_HH-MM-SS>.backup` that a backup writes, and parses that
//! convention back when a backup is restored.  All filesystem reads and writes
//! stay outside the library: callers hand in the observed entry kinds and
//! receive a plan of the actions to perform.

pub mod clock;
pub mod name;
pub mod plan;
pub mod shape;
pub mod stamp;

pub use shape::BackupError;
pub use shape::BackupShape;
pub use shape::EntryKind;
