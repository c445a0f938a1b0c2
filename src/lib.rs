//! Line annotations for files of a git repository: each note is anchored to one
//! line of one blob and follows that line as the file changes.

pub mod diff;
pub mod error;
pub mod handlers;
pub mod ledger;
pub mod libgit;
pub mod note;
pub mod path;
pub mod repository;
pub mod text;
