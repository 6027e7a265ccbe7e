//! A small persistent registry that maps a unique name to an `Api`
//! configuration record, kept in an embedded, crash-durable key-value store.

pub mod error;
pub mod laws;
pub mod layout;
pub mod record;
pub mod storage;
