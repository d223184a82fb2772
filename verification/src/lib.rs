//! Decision core of a hot-reload supervisor for one native shared library.
//!
//! The crate holds everything the supervisor decides: how a load attempt is
//! judged, which exported functions a tick calls, what a tick prints, and when
//! a change of the backing file's modification time leads to a reload. The
//! caller performs the outside work (mapping the library, calling into it,
//! sleeping, reading file metadata) and reports what happened.

pub mod handle;
pub mod laws;
pub mod loader;
pub mod report;
pub mod supervisor;
pub mod timestamp;
