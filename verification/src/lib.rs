//! Stamps out a single-file cargo script: a shebang line, an embedded manifest
//! and a body. The embedded manifest can be imported from the project of an
//! existing program, with its formatting removed and, on request, without
//! the dependencies that the program does not use.
//!
//! Nothing here reads a file or runs a tool: the caller does, and hands in
//! what came back.

pub mod cli;
pub mod error;
pub mod frontmatter;
pub mod json;
pub mod manifest;
pub mod script;
pub mod template;
pub mod text;
pub mod tree;
