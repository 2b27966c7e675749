//! The optimization core of a compiler's mid-level IR pipeline.
//!
//! A per-function IR body arrives fresh from type checking and is driven,
//! through a fixed sequence of named transformation passes and phase
//! transitions, to a terminal, code-generation-ready form. The crate provides:
//!
//! * the per-function IR data model (control-flow graph, locals, phase tag);
//! * the strict total order of phases a body passes through;
//! * a pass manager that runs an ordered list of gated passes against a body,
//!   validating structural invariants and asserting phase transitions;
//! * the fixed pipeline stages (build cleanup, promotion, drop elaboration,
//!   runtime lowering, runtime cleanup, optimization);
//! * a memoized query layer with single-consumption steal cells handing a
//!   body from one stage to the next, and cycle-aware cross-function facts.

pub mod codegen;
pub mod inline;
pub mod ir;
pub mod pass_manager;
pub mod passes;
pub mod phase;
pub mod pipeline;
pub mod queries;
pub mod shim;
pub mod steal;
pub mod util;
