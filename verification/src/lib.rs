//! Argument-binding code generation for `pyarg`-annotated structs.
//!
//! A struct whose named fields carry `pyarg(...)` annotations can be bound
//! from a call's argument bundle: each field is classified as positional-only,
//! positional-or-keyword, keyword-only, or flatten, optionally with a default.
//! This crate interprets the annotation grammar and selects, for every field,
//! the exact retrieval strategy and absence-fallback that the generated
//! binding code must use, reporting a diagnostic for every malformed input.

pub mod attr;
pub mod diagnostic;
pub mod emit;
pub mod field;
pub mod kind;
pub mod text;
