//! An append-only store of JSON documents in a single backing file.
//!
//! The store is a driver around one open file handle. Documents are serialized
//! to compact JSON and written one after the other at the handle's position,
//! with nothing between them. The first `HEADER_OFFSET` bytes of the file are
//! set aside for a header that is not written yet.
//!
//! This crate holds the driver's state and every decision it takes; it performs
//! no input or output itself. Its caller opens the file, hands the driver what
//! the filesystem reported, and carries out the writes the driver asks for.

pub mod doc_db;
pub mod error;
pub mod file;
pub mod json;
pub mod laws;

pub use doc_db::{FileDrv, FileDrvView, HEADER_OFFSET};
pub use error::WriteError;
pub use file::OpenMode;
