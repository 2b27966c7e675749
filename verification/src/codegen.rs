use vstd::prelude::*;

use crate::ir::{body_valid_at_phase, validate_body, Body};
use crate::phase::Phase;

verus! {

/// The experimental code-generation backend fed by this pipeline. Its own
/// lowering to machine code lives outside the library; here it stands as
/// the downstream consumer of terminal bodies, and it enforces the one rule
/// the pipeline owes it: a body is fit for code generation only when it is
/// structurally valid, phase-terminal, and not tainted by a reported error.
#[derive(Clone)]
pub struct MLIRCodegenBackend {}

/// A body may be handed to real code generation exactly when it is valid,
/// stands at the terminal `RuntimeOptimized` phase, and carries no taint: a
/// tainted terminal body exists only for best-effort tooling.
pub open spec fn fit_for_codegen(b: crate::ir::BodyModel) -> bool {
    &&& body_valid_at_phase(b)
    &&& b.phase == Phase::RuntimeOptimized
    &&& b.tainted_by_errors is None
}

impl MLIRCodegenBackend {
    pub fn new() -> (r: Self) {
        MLIRCodegenBackend {  }
    }

    /// This backend processes codegen units one at a time.
    pub fn supports_parallel(&self) -> (r: bool)
        ensures
            !r,
    {
        false
    }

    /// Decide whether a terminal body may be handed to code generation.
    pub fn accepts_for_codegen(&self, body: &Body) -> (r: bool)
        ensures
            r == fit_for_codegen(body@),
    {
        let valid = validate_body(body);
        let terminal = match body.phase {
            Phase::RuntimeOptimized => true,
            _ => false,
        };
        let untainted = match body.tainted_by_errors {
            None => true,
            Some(_) => false,
        };
        valid && terminal && untainted
    }
}

} // verus!
