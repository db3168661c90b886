//! The decisions behind creating, checking and restoring backups of a data
//! directory that holds an SQLite database.
//!
//! The library performs no input or output. Each operation that has to touch
//! the disk, the database or a request is a machine: a function from an event
//! (what the outside world answered) to a step (what is to be done next). A
//! driver performs the step and hands the answer back as the next event.

pub mod activate;
pub mod activate_laws;
pub mod archive;
pub mod archive_laws;
pub mod create;
pub mod create_laws;
pub mod database;
pub mod directory;
pub mod directory_laws;
pub mod error;
pub mod header;
pub mod header_laws;
pub mod naming;
pub mod naming_laws;
pub mod outcome_laws;
pub mod permissions;
pub mod permissions_laws;
pub mod prepare;
pub mod prepare_laws;
pub mod reply;
pub mod reply_laws;
pub mod request_laws;
pub mod restore;
pub mod restore_laws;
pub mod text;
pub mod walk;
pub mod walk_laws;
