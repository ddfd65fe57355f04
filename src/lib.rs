//! Resolves media URLs to stable identifiers and keeps a two-tier cache of
//! the metadata documents fetched for them.

pub mod cache;
pub mod error;
pub mod fetch;
pub mod id;

pub use error::MetaError;
