//! Transactional persistence rules for the apps of a workspace.
//!
//! The crate validates untrusted request fields, turns requests into
//! parameterised SQL statements, and drives each operation through its
//! transaction one step at a time. It performs no I/O itself: a host runs the
//! statements it is handed and reports back what the store answered.

pub mod app;
pub mod clock;
pub mod entities;
pub mod error;
pub mod ident;
pub mod parser;
pub mod sql;
pub mod store;
pub mod text;
pub mod transaction;
