//! Content loading for a small blog.
//!
//! The posts are kept in a directory: one directory for each post, and in
//! it a YAML sidecar with the post's metadata beside the markdown body.
//! This library holds what is decided on the way from such a directory to
//! a page: which identifiers are accepted and where a body is kept
//! ([`identifier`]), what a sidecar must hold ([`metadata`]), how the
//! directory is walked ([`scanner`]) and what the walk gives ([`listing`]),
//! what a body is rendered to ([`render`]), and what a page shows while a
//! fetch is under way ([`page`]). It reads no file itself: the caller
//! lists and reads, and tells the library what came of it ([`tree`]).
//! [`memory`] holds a posts directory in memory and runs both operations
//! against it; [`walk`] proves that a scan answered from a tree ends with
//! that tree's listing; [`laws`] states what holds of every posts
//! directory.

pub mod error;
pub mod identifier;
pub mod laws;
pub mod listing;
pub mod memory;
pub mod metadata;
pub mod page;
pub mod render;
pub mod scanner;
pub mod text;
pub mod tree;
pub mod walk;
