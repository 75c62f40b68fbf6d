//! Extraction of plain natural-language text from parsed wiki-markup trees.
//!
//! The crate flattens a markup node tree into linear text: a recursive
//! dispatcher turns each node into an optional fragment, a template resolver
//! maps known template names to extraction rules, lists and links get shared
//! formatting rules, redirect pages are filtered out, and a final pass
//! collapses runs of whitespace after line breaks.

pub mod foreign;
pub mod frconfig;
pub mod flatten;
pub mod normalize;
pub mod page;
pub mod strutil;
pub mod tree;

pub use tree::Page;
