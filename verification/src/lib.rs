//! Semantic front-end of a binary codec generator: resolves the declarative
//! per-field directive language into normalized, validated field and variant
//! specifications, accumulating diagnostics instead of stopping at the first
//! defect.

pub mod span;
pub mod tokens;
pub mod diag;
pub mod directive;
pub mod types;
pub mod field;
pub mod variant;
pub mod laws;
