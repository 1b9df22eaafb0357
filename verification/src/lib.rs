//! Turns a directory tree of source files into one analysis prompt and
//! collects the streamed answer of a text-generation service.

pub mod cli;
pub mod completion;
pub mod prompt;
pub mod sink;
pub mod text;
pub mod tree;
pub mod tree_laws;
pub mod walk;
