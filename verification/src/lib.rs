//! A platform-independent abstraction over a file system: reading file
//! contents, listing directory entries, and subscribing to change
//! notifications through a normalized event stream, together with the
//! document-tree data model that consumes those capabilities.

pub mod error;
pub mod fs;
pub mod tree;
