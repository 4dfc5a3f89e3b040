//! Guarded single-file backup, restore and delete.
//!
//! The library decides; it never touches the file system itself. Each
//! operation is a small machine: it names the next file-system request, takes
//! the reply, and either names another request, completes, or fails with a
//! typed error. Paths are made absolute and free of `.` and `..` before any
//! guard looks at them.

pub mod backup;
pub mod cli;
pub mod delete;
pub mod error;
pub mod guard;
pub mod laws;
pub mod path;
pub mod protocol;
pub mod restore;
pub mod text;
pub mod utils;
