//! Host side of a script-driven UI control and code-generation bridge.
//!
//! A user-authored script describes UI controls as dynamic positional tables
//! and emits fragments of generated source text. This crate holds the typed
//! control model, the validating parser that turns a dynamic descriptor table
//! into typed controls, the per-frame value-synchronization cycle between
//! host-held control state and script globals, and the aggregation of the
//! per-script code-generation phases.

pub mod controls;
pub mod errors;
pub mod generator;
pub mod handler;
pub mod parse;
pub mod runtime;
pub mod values;
