//! Execution core of an embeddable interpreter for a small, statically
//! scoped configuration language.
//!
//! The crate models the evaluation runtime: the call stack, module and
//! local variable slots, a mutable value heap with a garbage-collection
//! trigger policy, a never-collected frozen heap, and an opt-in profiling
//! subsystem hung off the call boundary.

pub mod call_stack;
mod clock;
pub mod codemap;
pub mod errors;
pub mod evaluator;
pub mod module;
pub mod profile;
pub mod render;
pub mod slots;
pub mod stmt_profile;
pub mod values;
