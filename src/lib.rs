//! Structural translation of a GCC-XML style syntax-tree dump into Rust-like
//! source text: schema mapping, identifier resolution, body decoding and
//! emission, each with a verified contract.

pub mod document;
pub mod text;
pub mod ast;
pub mod schema;
pub mod registry;
pub mod emit;
pub mod references;
pub mod driver;
pub mod laws;
