//! Core of a WebAssembly compilation runtime with first-class typed
//! delimited continuations.
//!
//! The crate covers the deterministic `VMContext` layout engine and its
//! accessors, the Wasm type model with its wire-format conversions, the
//! module descriptor accumulated from a decoder's declarations, the builtin
//! registry of runtime helpers, the translation environment that lowers
//! operators to a small IR, and the continuation runtime's state machine
//! with its selector encoding.

pub mod api_types;
pub mod builtin;
pub mod continuation;
pub mod environ;
pub mod ir;
pub mod module;
pub mod translation_utils;
pub mod types;
pub mod vmoffsets;
pub mod wire;
