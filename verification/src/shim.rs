use vstd::prelude::*;

use crate::ir::{
    body_valid_at_phase, is_lone_unreachable, BasicBlock, BlockModel, Body, BodyModel, Local,
    Statement, Terminator,
};
use crate::phase::Phase;
use crate::queries::{crate_input_wf, CrateInput, FnKind};

verus! {

/// The effect initializing the return place of a synthesized constructor.
pub const CTOR_AGGREGATE_EFFECT: u64 = 3;

/// The terminal body of a synthesized data constructor: one block that
/// builds the aggregate into the return place and returns, keeping only the
/// return slot and the parameters. It is produced directly, with no pass of
/// any pipeline stage invoked on it.
pub open spec fn ctor_body_model(input_body: BodyModel, f: usize) -> BodyModel {
    BodyModel {
        blocks: seq![
            BlockModel {
                statements: seq![Statement::Assign { dest: 0, effect: CTOR_AGGREGATE_EFFECT }],
                terminator: Terminator::Return,
            },
        ],
        locals: input_body.locals.take(input_body.arg_count + 1),
        arg_count: input_body.arg_count,
        phase: Phase::RuntimeOptimized,
        tainted_by_errors: None,
        source: f,
        span: input_body.span,
    }
}

/// Build a constructor's terminal body directly from its input, without
/// running any pass: constructors bypass the pipeline entirely.
pub fn build_adt_ctor(input: &CrateInput, f: usize) -> (r: Body)
    requires
        crate_input_wf(input@),
        f < input@.fns.len(),
    ensures
        r@ == ctor_body_model(input@.fns[f as int].body, f),
        body_valid_at_phase(r@),
        r@.phase == Phase::RuntimeOptimized,
        !is_lone_unreachable(r@),
        r@.tainted_by_errors is None,
{
    let src = &input.fns[f].body;
    let mut statements: Vec<Statement> = Vec::new();
    statements.push(Statement::Assign { dest: 0, effect: CTOR_AGGREGATE_EFFECT });
    let mut blocks: Vec<BasicBlock> = Vec::new();
    blocks.push(BasicBlock { statements, terminator: Terminator::Return });
    let mut locals: Vec<Local> = Vec::new();
    let ln = src.locals.len();
    assert(src@ == input@.fns[f as int].body);
    assert(src.arg_count < ln);
    let keep = src.arg_count + 1;
    let mut k: usize = 0;
    while k < keep
        invariant
            keep <= src.locals@.len(),
            k <= keep,
            locals@ == src.locals@.take(k as int),
        decreases keep - k,
    {
        locals.push(src.locals[k]);
        assert(locals@ =~= src.locals@.take(k + 1 as int));
        k = k + 1;
    }
    let r = Body {
        blocks,
        locals,
        arg_count: src.arg_count,
        phase: Phase::RuntimeOptimized,
        tainted_by_errors: None,
        source: f,
        span: src.span,
    };
    assert(r@.blocks =~~= ctor_body_model(src@, f).blocks);
    assert(r@ =~~= ctor_body_model(src@, f));
    r
}

} // verus!
