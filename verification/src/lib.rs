//! Splitting a tagged enum declaration with a shared "common" field into a
//! wrapper struct plus a variants-only enum, together with the fixed suite of
//! operations that binds the two generated types back into one logical unit.
//!
//! The library works on its own declaration model: names, visibility markers,
//! generic parameters, annotations and variant bodies are held as plain token
//! text. Parsing source text into this model and rendering the generated
//! declarations back out are the host toolchain's job, not the library's.
//!
//! - [`decl`] holds the input model and the annotation classification.
//! - [`resolve`] finds the one `common_data_type` annotation, or says exactly
//!   why it could not.
//! - [`emit`] splits a declaration into the generated bundle; [`output`] is
//!   that bundle's shape.
//! - [`wrapper`] gives the generated operations their runtime semantics, once
//!   and generically.
//! - [`diag`] is the failure taxonomy; [`laws`] states and proves the
//!   properties that tie the pieces together.

pub mod decl;
pub mod diag;
pub mod emit;
pub mod laws;
pub mod output;
pub mod resolve;
pub mod wrapper;
