//! A verified core for a language server for a whitespace-only source
//! language: every token of a program is written with spaces, tabs and
//! newlines.  The library tokenizes a document into a syntax tree, finds
//! the meaningful node under a cursor, and computes the hover, document
//! highlight and inlay hint answers that an editor asks for.  The
//! process edges — stdio transport, JSON framing, file reading — live
//! outside the library and hand it plain values.

pub mod classify;
pub mod coords;
pub mod dispatch;
pub mod kinds;
pub mod parser;
pub mod queries;
pub mod scan;
pub mod tokens;
pub mod tree;
