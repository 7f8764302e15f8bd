//! Descriptions of C types, and of null-terminated arrays of them, as they are
//! handed to a foreign-function call interface.
//!
//! A [`types::Type`] is either one of the process-wide scalar descriptors, which
//! a handle only borrows, or a structure descriptor that the handle owns
//! together with everything below it. Ownership follows the language's move
//! semantics, so every owned node is released exactly once.

pub mod tag;
pub mod types;
pub mod laws;
