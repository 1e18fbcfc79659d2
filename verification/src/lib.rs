//! An in-memory versioned-record store: a `Document` value type carrying
//! content, timestamps and a version counter, together with a `Storage`
//! contract for keeping documents keyed by an integer identifier, and a
//! reference implementation of that contract on `Vec`.

pub mod document;
pub mod storage;
pub mod text;

pub use crate::document::Document;
pub use crate::storage::Storage;
