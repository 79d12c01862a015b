//! Attendance-tracking backend core.
//!
//! The library holds the verified heart of a small attendance portal:
//! the domain records (students, teachers, classes, attendance events),
//! the validation and decision rules of every endpoint, and an in-memory
//! document store whose operations carry full functional contracts.
//! Process wiring (HTTP serving, the document-database driver) lives
//! outside the library and calls into the decision functions here.

pub mod db;
pub mod error;
pub mod laws;
pub mod models;
pub mod roll;
pub mod state;
