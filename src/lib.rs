//! Derives OpenAPI operation documentation from descriptions of the types
//! that request handlers take and return.
mod content;
pub mod context;
pub mod input;
pub mod laws;
pub mod merge;
pub mod openapi;

pub use content::content_entries;
pub mod output;
pub mod shape;
