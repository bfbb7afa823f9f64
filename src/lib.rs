//! Ahead-of-time compilation of one regular expression into a dedicated
//! matching predicate.
//!
//! A pattern is parsed into a tree (`Ir`), the tree is translated into a
//! small matching program (`Matcher`), and the program is written out as
//! Rust source for a module exposing `is_match(input: &str) -> bool`.
mod assemble;
mod compile;
mod hir;
mod ir;
mod matcher;
mod text;

pub use assemble::{assemble_unit, check_identifier, regex_to_code, unit_from_tree, ParseOptions};
pub use compile::{
    compile_pattern, implement_parser, lemma_capture_transparent, lemma_compile_deterministic,
    lemma_emits_unique, lemma_unmatchable_rejects_all, CompileError, NodeKind,
};
pub use ir::{ByteRange, CharRange, Class, Ir, IrKind};
pub use matcher::Matcher;
