//! An editor-integrated static analyzer: it walks each revision of a
//! source document's syntax tree for a small fixed set of risky idioms —
//! `unwrap` calls, `panic!` invocations, `unsafe` blocks, `?`
//! expressions, `'static` reference annotations — and renders positioned
//! diagnostics for the editor protocol.
//!
//! The analysis pipeline is verified end to end over a plain model of
//! the parsed tree: the traversal and classification rules, the
//! finding-to-diagnostic rendering, and the parser-to-editor position
//! mapping each carry exact contracts.

pub mod analysis;
pub mod ast;
pub mod laws;
pub mod lints;
pub mod span;
pub mod walker;
